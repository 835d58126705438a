use iiif::{classify_image_response, parse_status, ResponseError, Url};

const NOT_FOUND: &str = "The image resource specified by identifier does not exist, the value of one or more of the parameters is not supported for this image, or the requested size is greater than the limits specified.";

fn any_url() -> Url {
    Url::parse("https://example.org/i/full/full/0/default.jpg").expect("literal parses")
}

#[test]
fn http_404_yields_the_fixed_not_found_error() {
    let r = classify_image_response(404, any_url(), Vec::new());
    let e = r.err().expect("404 is an error");
    assert_eq!(e.status_code, 404);
    assert_eq!(e.details, NOT_FOUND);
}

#[test]
fn http_200_hands_the_body_through_byte_for_byte() {
    let body = vec![0xffu8, 0xd8, 0xff, 0xe0, 0x00, 0x10, 0x4a, 0x46];
    let r = classify_image_response(200, any_url(), body.clone());
    let resp = r.ok().expect("200 succeeds");
    assert_eq!(resp.status_code, 200);
    assert_eq!(resp.image, body);
    assert!(resp.success());
}

#[test]
fn every_2xx_status_is_a_success() {
    for status in [200u16, 201, 204, 299] {
        let r = classify_image_response(status, any_url(), vec![1, 2, 3]);
        let resp = r.ok().expect("2xx succeeds");
        assert!(resp.success());
        assert_eq!(resp.image, vec![1, 2, 3]);
    }
}

#[test]
fn statuses_outside_2xx_are_errors() {
    for status in [100u16, 199, 300, 400, 500] {
        let r = classify_image_response(status, any_url(), Vec::new());
        let e = r.err().expect("non-2xx fails");
        assert_eq!(e.status_code, status);
    }
}

#[test]
fn cloned_image_response_keeps_the_body() {
    let resp = classify_image_response(200, any_url(), vec![1, 2, 3])
        .ok()
        .expect("200 succeeds");
    let copy = resp.clone();
    assert_eq!(copy.status_code, resp.status_code);
    assert_eq!(copy.url, resp.url);
    assert_eq!(copy.image, resp.image);
}

#[test]
fn parse_status_knows_each_listed_code() {
    assert!(parse_status(400).starts_with("The server cannot fulfill the request"));
    assert!(parse_status(401).starts_with("Authentication is required"));
    assert!(parse_status(403).starts_with("The user, authenticated or not"));
    assert_eq!(parse_status(404), NOT_FOUND);
    assert!(parse_status(500).starts_with("The server encountered an unexpected error"));
    assert!(parse_status(501).starts_with("The server received a valid IIIF request"));
    assert!(parse_status(503).starts_with("The server is busy"));
}

#[test]
fn parse_status_falls_back_for_other_codes() {
    assert_eq!(parse_status(418), "Unspecified Error, check status code");
    assert_eq!(parse_status(302), "Unspecified Error, check status code");
}

#[test]
fn response_error_carries_code_and_details() {
    let e = ResponseError::new(503);
    assert_eq!(e.status_code, 503);
    assert_eq!(e.details, parse_status(503));
    assert_eq!(
        e.message(),
        "503: The server is busy/temporarily unavailable due to load/maintenance issues."
    );
}
