use vstd::prelude::*;
use vstd::string::*;

verus! {

/// The description the IIIF Image API attaches to an HTTP status code
/// returned by an image server.  Codes outside the table fall back to a
/// generic description.
pub open spec fn status_details(status_code: u16) -> Seq<char> {
    if status_code == 400 {
        "The server cannot fulfill the request, as the syntax of the request issued by the client is incorrect."@
    } else if status_code == 401 {
        "Authentication is required and not provided. See https://iiif.io/api/image/2.1/#authentication"@
    } else if status_code == 403 {
        "The user, authenticated or not, is not permitted to perform the requested operation."@
    } else if status_code == 404 {
        "The image resource specified by identifier does not exist, the value of one or more of the parameters is not supported for this image, or the requested size is greater than the limits specified."@
    } else if status_code == 500 {
        "The server encountered an unexpected error that prevented it from fulfilling the request."@
    } else if status_code == 501 {
        "The server received a valid IIIF request that is not implemented."@
    } else if status_code == 503 {
        "The server is busy/temporarily unavailable due to load/maintenance issues."@
    } else {
        "Unspecified Error, check status code"@
    }
}

/// Maps an HTTP status code to the IIIF error description.
pub fn parse_status(status_code: u16) -> (details: String)
    ensures
        details@ == status_details(status_code),
{
    match status_code {
        400 => String::from_str("The server cannot fulfill the request, as the syntax of the request issued by the client is incorrect."),
        401 => String::from_str("Authentication is required and not provided. See https://iiif.io/api/image/2.1/#authentication"),
        403 => String::from_str("The user, authenticated or not, is not permitted to perform the requested operation."),
        404 => String::from_str("The image resource specified by identifier does not exist, the value of one or more of the parameters is not supported for this image, or the requested size is greater than the limits specified."),
        500 => String::from_str("The server encountered an unexpected error that prevented it from fulfilling the request."),
        501 => String::from_str("The server received a valid IIIF request that is not implemented."),
        503 => String::from_str("The server is busy/temporarily unavailable due to load/maintenance issues."),
        _ => String::from_str("Unspecified Error, check status code"),
    }
}

/// Holds the status code of a failed request and the matching IIIF error
/// description.
#[derive(Debug)]
pub struct ResponseError {
    pub status_code: u16,
    pub details: String,
}

impl ResponseError {
    pub fn new(status_code: u16) -> (r: ResponseError)
        ensures
            r.status_code == status_code,
            r.details@ == status_details(status_code),
    {
        ResponseError { status_code, details: parse_status(status_code) }
    }

    /// Renders the error as `"<code>: <details>"`.
    pub fn message(&self) -> (s: String)
        ensures
            s@ == crate::utils::dec_str(self.status_code as nat) + ": "@ + self.details@,
    {
        let mut s = crate::utils::fmt_u64(self.status_code as u64);
        s.append(": ");
        s.append(self.details.as_str());
        s
    }
}

/// Everything that can go wrong short of the transport: a host that does
/// not make a URL, a non-2xx answer, or a metadata document that cannot be
/// read.
#[derive(Debug)]
pub enum ApiError {
    Url(crate::uri::UrlError),
    Http(ResponseError),
    Info(crate::json::InfoError),
}

} // verus!
