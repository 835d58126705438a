use vstd::prelude::*;
use vstd::string::*;
use vstd::utf8::encode_utf8;

use crate::api::Image;
use crate::parameters::{
    format_str, quality_str, region_str, rotation_str, size_str, Format, Quality, Region, Rotation,
    Size,
};
use crate::utils::copy_strings;

verus! {

#[verifier::external_type_specification]
#[verifier::external_body]
pub struct ExUrl(url::Url);

/// The text a URL value serializes to.  A URL is nothing but its
/// serialization, so this pins the value down.
pub uninterp spec fn url_str(u: url::Url) -> Seq<char>;

/// Whether `url::Url::parse` accepts the text as an absolute URL.
pub uninterp spec fn url_parse_ok(text: Seq<char>) -> bool;

/// The serialization of the URL that `url::Url::parse` reads from the given
/// text, on the texts it accepts.
pub uninterp spec fn parsed_url_str(text: Seq<char>) -> Seq<char>;

/// The serialization after the `url` crate drops a trailing empty path
/// segment from a URL with the given serialization and then appends the
/// given segment, percent-encoded.
pub uninterp spec fn pushed_url_str(base: Seq<char>, segment: Seq<char>) -> Seq<char>;

/// Whether a URL with the given serialization can carry path segments,
/// that is, is not a cannot-be-a-base URL such as a data or mailto URL.
pub uninterp spec fn url_can_be_base(s: Seq<char>) -> bool;

/// The scheme of a URL with the given serialization.
pub uninterp spec fn url_scheme(s: Seq<char>) -> Seq<char>;

/// The authority (user information, host and port) of a URL with the given
/// serialization.
pub uninterp spec fn url_authority(s: Seq<char>) -> Seq<char>;

/// The longest serialization the library will extend, and the longest
/// single segment it will append.  Together they keep every request URL
/// far below the `url` crate's internal length limit.
pub const MAX_URL_LEN: usize = 268435456;

/// See `MAX_URL_LEN`.
pub const MAX_SEGMENT_LEN: usize = 16777216;

/// Why a request URL could not be built: the host did not parse as an
/// absolute URL; it parsed as one that cannot carry path segments (such as
/// a data or mailto URL); or the URL or one segment outgrew the bounds
/// above.
#[derive(Debug, Clone, Copy, PartialEq, Eq, Structural)]
pub enum UrlError {
    Parse,
    CannotBeABase,
    TooLong,
}

/// Relies on url::Url::parse: reads an absolute URL from the text; which
/// texts it accepts is the crate's own grammar, and a text it refuses
/// (over-long ones included) is answered with an error, never a panic.
#[verifier::external_body]
fn parse_url(host: &str) -> (r: Result<url::Url, UrlError>)
    ensures
        (r is Ok) == url_parse_ok(host@),
        r matches Ok(u) ==> url_str(u) == parsed_url_str(host@),
        r matches Err(e) ==> e == UrlError::Parse,
{
    match url::Url::parse(host) {
        Ok(u) => Ok(u),
        Err(_) => Err(UrlError::Parse),
    }
}

/// Relies on url::Url::as_str, measured with str::len: the length of the
/// stored serialization.  The crate keeps that text ASCII — hosts are
/// punycoded or percent-encoded, and every non-ASCII byte elsewhere is
/// percent-encoded — so its bytes are its characters.
#[verifier::external_body]
fn url_text_len(u: &url::Url) -> (n: usize)
    ensures
        n == url_str(*u).len(),
{
    u.as_str().len()
}

/// Relies on url::Url::path_segments_mut, PathSegmentsMut::pop_if_empty and
/// PathSegmentsMut::push: drops a trailing empty path segment, then appends
/// the given segment, percent-encoding it (the crate ignores the segments
/// `.` and `..`); the scheme and authority stay as they are.  Succeeds
/// exactly when the URL can be a base, and changes nothing otherwise.  The
/// length bound keeps the crate's internal positions (32 bits wide; the
/// encoding triples a byte at most, the serialization holds at most four
/// bytes per character) in range, so the call cannot panic.
#[verifier::external_body]
fn push_url_segment(u: &mut url::Url, segment: &str) -> (ok: bool)
    requires
        4 * url_str(*old(u)).len() + 3 * encode_utf8(segment@).len() + 1 <= u32::MAX,
    ensures
        ok == url_can_be_base(url_str(*old(u))),
        ok ==> url_str(*final(u)) == pushed_url_str(url_str(*old(u)), segment@),
        ok ==> url_can_be_base(url_str(*final(u))),
        ok ==> url_scheme(url_str(*final(u))) == url_scheme(url_str(*old(u))),
        ok ==> url_authority(url_str(*final(u))) == url_authority(url_str(*old(u))),
        !ok ==> *final(u) == *old(u),
{
    match u.path_segments_mut() {
        Ok(mut segments) => {
            segments.pop_if_empty().push(segment);
            true
        },
        Err(()) => false,
    }
}

/// Relies on <url::Url as Clone>::clone: a value equal to the one cloned.
pub assume_specification[ <url::Url as Clone>::clone ](u: &url::Url) -> (r: url::Url)
    ensures
        r == *u,
;

/// The serialization after every part in turn is appended as one path
/// segment.
pub open spec fn pushed_all_url_str(base: Seq<char>, parts: Seq<Seq<char>>) -> Seq<char>
    decreases parts.len(),
{
    if parts.len() == 0 {
        base
    } else {
        pushed_all_url_str(pushed_url_str(base, parts[0]), parts.drop_first())
    }
}

/// Whether the URL stays within the length bounds while every part in turn
/// is appended: at each step the serialization so far is at most
/// `MAX_URL_LEN` characters and the next part at most `MAX_SEGMENT_LEN`
/// bytes.
pub open spec fn parts_fit(base: Seq<char>, parts: Seq<Seq<char>>) -> bool
    decreases parts.len(),
{
    parts.len() == 0 || (base.len() <= MAX_URL_LEN && encode_utf8(parts[0]).len()
        <= MAX_SEGMENT_LEN && parts_fit(pushed_url_str(base, parts[0]), parts.drop_first()))
}

proof fn lemma_pushed_all_url_str_snoc(base: Seq<char>, parts: Seq<Seq<char>>, part: Seq<char>)
    ensures
        pushed_all_url_str(base, parts.push(part)) == pushed_url_str(
            pushed_all_url_str(base, parts),
            part,
        ),
    decreases parts.len(),
{
    let whole = parts.push(part);
    if parts.len() == 0 {
        assert(whole[0] == part);
        assert(whole.drop_first() =~= Seq::<Seq<char>>::empty());
        assert(pushed_all_url_str(base, whole) == pushed_all_url_str(
            pushed_url_str(base, part),
            whole.drop_first(),
        ));
        assert(pushed_all_url_str(pushed_url_str(base, part), whole.drop_first()) == pushed_url_str(
            base,
            part,
        ));
        assert(pushed_all_url_str(base, parts) == base);
    } else {
        assert(whole[0] == parts[0]);
        assert(whole.drop_first() =~= parts.drop_first().push(part));
        assert(pushed_all_url_str(base, whole) == pushed_all_url_str(
            pushed_url_str(base, parts[0]),
            whole.drop_first(),
        ));
        lemma_pushed_all_url_str_snoc(pushed_url_str(base, parts[0]), parts.drop_first(), part);
        assert(pushed_all_url_str(base, parts) == pushed_all_url_str(
            pushed_url_str(base, parts[0]),
            parts.drop_first(),
        ));
    }
}

/// The path segments of an image request, in order: the prefixes, the
/// identifier, then the four slash-separated parameters with the format
/// appended to the quality.
pub open spec fn request_parts(img: Image) -> Seq<Seq<char>> {
    img.prefixes.deep_view() + seq![
        img.identifier@,
        region_str(img.region),
        size_str(img.size),
        rotation_str(img.rotation),
        quality_str(img.quality) + "."@ + format_str(img.format),
    ]
}

/// The path segments of a metadata request, in order: the prefixes, the
/// identifier, then the fixed document name.
pub open spec fn info_parts(img: Image) -> Seq<Seq<char>> {
    img.prefixes.deep_view() + seq![img.identifier@, "info.json"@]
}

/// What `build_uri` owes for host text and parts: a URL exactly when the
/// host parses and, if any part is to be appended, the parsed host can be
/// a base and every step stays within the length bounds.
pub open spec fn build_ok(host: Seq<char>, parts: Seq<Seq<char>>) -> bool {
    url_parse_ok(host) && (parts.len() == 0 || (url_can_be_base(parsed_url_str(host))
        && parts_fit(parsed_url_str(host), parts)))
}

/// An endpoint whose request parameters all stand at their defaults asks
/// for region `full`, size `full`, rotation `0`, quality `default` and
/// format `jpg`: its request path is the prefixes, the identifier, and then
/// exactly those canonical segments.
pub proof fn lemma_default_request_parts(img: Image)
    requires
        img.region == Region::Full,
        img.size == Size::Full,
        img.rotation == Rotation::Normal(0),
        img.quality == Quality::ServerDefault,
        img.format == Format::Jpg,
    ensures
        request_parts(img) == img.prefixes.deep_view() + seq![
            img.identifier@,
            "full"@,
            "full"@,
            "0"@,
            "default.jpg"@,
        ],
{
    reveal_strlit("0");
    reveal_strlit(".");
    reveal_strlit("default");
    reveal_strlit("jpg");
    reveal_strlit("default.jpg");
    assert(rotation_str(img.rotation) =~= "0"@);
    assert(quality_str(img.quality) + "."@ + format_str(img.format) =~= "default.jpg"@);
    assert(request_parts(img) =~= img.prefixes.deep_view() + seq![
        img.identifier@,
        "full"@,
        "full"@,
        "0"@,
        "default.jpg"@,
    ]);
}

impl Image {
    /// The path segments of an image request built from the current
    /// parameters.
    pub fn build_parts(&self) -> (parts: Vec<String>)
        ensures
            parts.deep_view() == request_parts(*self),
    {
        let mut out = copy_strings(&self.prefixes);
        out.push(self.identifier.clone());
        out.push(self.region.to_string());
        out.push(self.size.to_string());
        out.push(self.rotation.to_string());
        let mut quality_format = self.quality.to_string();
        quality_format.append(".");
        quality_format.append(self.format.to_string().as_str());
        out.push(quality_format);
        assert(out.deep_view() =~= request_parts(*self));
        out
    }

    /// The path segments of a metadata request built from the current
    /// parameters.
    pub fn build_info_parts(&self) -> (parts: Vec<String>)
        ensures
            parts.deep_view() == info_parts(*self),
    {
        let mut out = copy_strings(&self.prefixes);
        out.push(self.identifier.clone());
        out.push(String::from_str("info.json"));
        assert(out.deep_view() =~= info_parts(*self));
        out
    }

    /// Parses the host and appends each part as one percent-encoded path
    /// segment, keeping the host's scheme and authority.  Yields a URL
    /// exactly when the host parses, can carry segments (or there are
    /// none), and the length bounds hold throughout; the error says which
    /// of the three failed, and no request is attempted then.
    pub fn build_uri(&self, parts: Vec<String>) -> (r: Result<url::Url, UrlError>)
        ensures
            (r is Ok) == build_ok(self.host@, parts.deep_view()),
            r matches Ok(u) ==> url_str(u) == pushed_all_url_str(
                parsed_url_str(self.host@),
                parts.deep_view(),
            ),
            r matches Ok(u) ==> url_scheme(url_str(u)) == url_scheme(parsed_url_str(self.host@))
                && url_authority(url_str(u)) == url_authority(parsed_url_str(self.host@)),
            (r == Err::<url::Url, UrlError>(UrlError::Parse)) == !url_parse_ok(self.host@),
            r == Err::<url::Url, UrlError>(UrlError::CannotBeABase) ==> !url_can_be_base(
                parsed_url_str(self.host@),
            ),
            r == Err::<url::Url, UrlError>(UrlError::TooLong) ==> !parts_fit(
                parsed_url_str(self.host@),
                parts.deep_view(),
            ),
    {
        let mut u = match parse_url(self.host.as_str()) {
            Ok(u) => u,
            Err(e) => { return Err(e) },
        };
        let ghost base = parsed_url_str(self.host@);
        let ghost dv = parts.deep_view();
        let mut i: usize = 0;
        proof {
            assert(dv.skip(0int) =~= dv);
            assert(dv.take(0int) =~= Seq::<Seq<char>>::empty());
        }
        while i < parts.len()
            invariant
                i <= parts@.len(),
                dv == parts.deep_view(),
                dv.len() == parts@.len(),
                url_parse_ok(self.host@),
                base == parsed_url_str(self.host@),
                url_str(u) == pushed_all_url_str(base, dv.take(i as int)),
                i == 0 ==> url_str(u) == base,
                i > 0 ==> url_can_be_base(base) && url_can_be_base(url_str(u)),
                i > 0 ==> url_scheme(url_str(u)) == url_scheme(base) && url_authority(url_str(u))
                    == url_authority(base),
                parts_fit(base, dv) == parts_fit(url_str(u), dv.skip(i as int)),
            decreases parts@.len() - i,
        {
            let ghost before = url_str(u);
            let n = url_text_len(&u);
            let seg = parts[i].as_str();
            let seg_len = seg.as_bytes().len();
            proof {
                broadcast use vstd::slice::group_slice_axioms;
                assert(seg_len == encode_utf8(seg@).len());
                assert(seg@ == dv[i as int]);
                assert(dv.skip(i as int)[0] == dv[i as int]);
                assert(dv.skip(i as int).drop_first() =~= dv.skip(i + 1 as int));
            }
            if n > MAX_URL_LEN || seg_len > MAX_SEGMENT_LEN {
                proof {
                    assert(!parts_fit(url_str(u), dv.skip(i as int)));
                }
                return Err(UrlError::TooLong);
            }
            let ok = push_url_segment(&mut u, seg);
            if !ok {
                proof {
                    assert(dv.take(0int) =~= Seq::<Seq<char>>::empty());
                }
                return Err(UrlError::CannotBeABase);
            }
            proof {
                lemma_pushed_all_url_str_snoc(base, dv.take(i as int), dv[i as int]);
                assert(dv.take(i + 1 as int) =~= dv.take(i as int).push(dv[i as int]));
                assert(parts_fit(before, dv.skip(i as int)) == parts_fit(
                    url_str(u),
                    dv.skip(i + 1 as int),
                ));
            }
            i = i + 1;
        }
        proof {
            assert(dv.take(dv.len() as int) =~= dv);
            assert(dv.skip(dv.len() as int) =~= Seq::<Seq<char>>::empty());
        }
        Ok(u)
    }

    /// The full URL of an image request with the current parameters.
    pub fn request_url(&self) -> (r: Result<url::Url, UrlError>)
        ensures
            (r is Ok) == build_ok(self.host@, request_parts(*self)),
            r matches Ok(u) ==> url_str(u) == pushed_all_url_str(
                parsed_url_str(self.host@),
                request_parts(*self),
            ),
            r matches Ok(u) ==> url_scheme(url_str(u)) == url_scheme(parsed_url_str(self.host@))
                && url_authority(url_str(u)) == url_authority(parsed_url_str(self.host@)),
            (r == Err::<url::Url, UrlError>(UrlError::Parse)) == !url_parse_ok(self.host@),
    {
        let parts = self.build_parts();
        self.build_uri(parts)
    }

    /// The full URL of a metadata request with the current parameters.
    pub fn info_url(&self) -> (r: Result<url::Url, UrlError>)
        ensures
            (r is Ok) == build_ok(self.host@, info_parts(*self)),
            r matches Ok(u) ==> url_str(u) == pushed_all_url_str(
                parsed_url_str(self.host@),
                info_parts(*self),
            ),
            r matches Ok(u) ==> url_scheme(url_str(u)) == url_scheme(parsed_url_str(self.host@))
                && url_authority(url_str(u)) == url_authority(parsed_url_str(self.host@)),
            (r == Err::<url::Url, UrlError>(UrlError::Parse)) == !url_parse_ok(self.host@),
    {
        let parts = self.build_info_parts();
        self.build_uri(parts)
    }
}

} // verus!
