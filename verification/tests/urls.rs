use iiif::uri::MAX_SEGMENT_LEN;
use iiif::{Image, Quality, Region, Rotation, Size, UrlError};

#[test]
fn request_url_has_prefixes_identifier_and_parameters_in_order() {
    let mut api = Image::new("https://ids.lib.harvard.edu");
    api.prefixes(vec!["ids", "iiif"]);
    api.identifier("25286607");
    api.width(500);
    let url = api.request_url().expect("host parses");
    assert_eq!(url.path(), "/ids/iiif/25286607/full/500,/0/default.jpg");
    assert_eq!(
        url.as_str(),
        "https://ids.lib.harvard.edu/ids/iiif/25286607/full/500,/0/default.jpg"
    );
}

#[test]
fn prefixes_may_stand_in_the_host() {
    let mut api = Image::new("https://ids.lib.harvard.edu/ids/iiif/");
    api.identifier("25286607");
    api.width(200);
    let url = api.request_url().expect("host parses");
    assert_eq!(url.path(), "/ids/iiif/25286607/full/200,/0/default.jpg");
}

#[test]
fn info_url_ends_in_the_document_name() {
    let mut api = Image::new("https://ids.lib.harvard.edu");
    api.prefixes(vec!["ids", "iiif"]);
    api.identifier("25286607");
    let url = api.info_url().expect("host parses");
    assert_eq!(url.path(), "/ids/iiif/25286607/info.json");
}

#[test]
fn segments_are_percent_encoded() {
    let mut api = Image::new("https://example.org");
    api.identifier("a b/c");
    let url = api.info_url().expect("host parses");
    assert_eq!(url.path(), "/a%20b%2Fc/info.json");
}

#[test]
fn host_that_does_not_parse_is_reported() {
    let mut api = Image::new("not a url");
    api.identifier("x");
    assert!(matches!(api.request_url(), Err(UrlError::Parse)));
}

#[test]
fn host_that_cannot_carry_segments_is_reported() {
    let mut api = Image::new("mailto:someone@example.org");
    api.identifier("x");
    assert!(matches!(api.request_url(), Err(UrlError::CannotBeABase)));
}

#[test]
fn over_long_segment_is_reported() {
    let mut api = Image::new("https://example.org");
    let long = "x".repeat(MAX_SEGMENT_LEN + 1);
    api.identifier(&long);
    assert!(matches!(api.request_url(), Err(UrlError::TooLong)));
}

#[test]
fn equal_parameter_sets_compare_equal() {
    let mut a = Image::new("https://example.org");
    a.prefixes(vec!["p"]);
    a.identifier("i");
    a.width(5);
    let b = a.clone();
    assert_eq!(a, b);
    let mut c = a.clone();
    c.identifier("j");
    assert_ne!(a, c);
    let mut d = a.clone();
    d.prefixes(vec!["p", "q"]);
    assert_ne!(a, d);
}

#[test]
fn build_parts_lists_the_five_parameter_segments() {
    let mut api = Image::new("https://example.org");
    api.identifier("id1");
    api.square_region();
    api.less_than_width_height(200, 200);
    api.mirrored();
    api.gray();
    api.png();
    let parts = api.build_parts();
    assert_eq!(parts, vec!["id1", "square", "!200,200", "!0", "gray.png"]);
}

#[test]
fn build_info_parts_lists_identifier_and_document_name() {
    let mut api = Image::new("https://example.org");
    api.prefixes(vec!["p"]);
    api.identifier("id1");
    let parts = api.build_info_parts();
    assert_eq!(parts, vec!["p", "id1", "info.json"]);
}

#[test]
fn new_image_starts_with_defaults() {
    let mut api = Image::new("https://example.org");
    assert_eq!(api.host, "https://example.org");
    assert!(api.prefixes.is_empty());
    assert_eq!(api.identifier, "");
    assert_eq!(api.region, Region::Full);
    assert_eq!(api.size, Size::Full);
    assert_eq!(api.rotation, Rotation::Normal(0));
    assert_eq!(api.quality, Quality::ServerDefault);
    api.identifier("i");
    let parts = api.build_parts();
    assert_eq!(parts, vec!["i", "full", "full", "0", "default.jpg"]);
}

#[test]
fn setters_replace_only_their_parameter() {
    let mut api = Image::new("https://example.org");
    api.identifier("i");
    api.absolute_region(1, 2, 3, 4);
    api.pct_size(50);
    api.rotate_right();
    api.bitonal();
    api.tif();
    assert_eq!(api.identifier, "i");
    let parts = api.build_parts();
    assert_eq!(parts, vec!["i", "1,2,3,4", "pct:50", "90", "bitonal.tif"]);
    api.rotate_left();
    api.full_color();
    api.jp2();
    api.max_size();
    api.pct_region(500, 500, 99000, 99000);
    let parts = api.build_parts();
    assert_eq!(
        parts,
        vec!["i", "pct:0.5,0.5,99,99", "max", "270", "color.jp2"]
    );
    api.full_region();
    api.height(44);
    api.webp();
    api.pdf();
    api.gif();
    api.jpg();
    let parts = api.build_parts();
    assert_eq!(parts, vec!["i", "full", ",44", "270", "color.jpg"]);
    api.width_height(2, 3);
    let parts = api.build_parts();
    assert_eq!(parts, vec!["i", "full", "2,3", "270", "color.jpg"]);
}

#[test]
fn cloned_image_keeps_every_field() {
    let mut api = Image::new("https://example.org");
    api.prefixes(vec!["a", "b"]);
    api.identifier("id");
    api.width(9);
    let copy = api.clone();
    assert_eq!(copy.host, api.host);
    assert_eq!(copy.prefixes, api.prefixes);
    assert_eq!(copy.identifier, api.identifier);
    assert_eq!(copy.region, api.region);
    assert_eq!(copy.size, api.size);
    assert_eq!(copy.rotation, api.rotation);
    assert_eq!(copy.quality, api.quality);
    assert_eq!(copy.format, api.format);
}

#[test]
fn default_image_has_empty_host_and_default_parameters() {
    let api = Image::default();
    assert_eq!(api.host, "");
    assert!(api.prefixes.is_empty());
    assert_eq!(api.identifier, "");
    assert_eq!(api.region, Region::Full);
    assert_eq!(api.size, Size::Full);
}
