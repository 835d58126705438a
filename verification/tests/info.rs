use iiif::{classify_info_response, parse_info, ApiError, InfoError, Url};

const FULL_DOC: &str = r#"{
  "@context": "http://iiif.io/api/image/2/context.json",
  "@id": "https://ids.lib.harvard.edu/ids/iiif/25286607",
  "protocol": "http://iiif.io/api/image",
  "width": 2550,
  "height": 3400,
  "sizes": [{"width": 159, "height": 212}, {"width": 318, "height": 425}],
  "tiles": [{"width": 256, "scaleFactors": [1, 2, 4, 8, 16]}],
  "attribution": [{"@value": "Provided by Harvard University", "@language": "en"}],
  "logo": {
    "@id": "https://example.org/logo.png",
    "service": {
      "@context": "http://iiif.io/api/image/2/context.json",
      "@id": "https://example.org/logo-service",
      "profile": "http://iiif.io/api/image/2/level2.json"
    }
  },
  "license": ["http://example.org/license"],
  "profile": [
    "http://iiif.io/api/image/2/level2.json",
    {
      "formats": ["jpg", "png"],
      "qualities": ["default", "color", "gray"],
      "supports": ["regionByPct", "sizeByW"]
    }
  ],
  "service": [{
    "@context": "http://iiif.io/api/annex/services/physdim/1/context.json",
    "profile": "http://iiif.io/api/annex/services/physdim",
    "physicalScale": 0.0025,
    "physicalUnits": "in",
    "@id": "https://example.org/physdim"
  }]
}"#;

fn info_url() -> Url {
    Url::parse("https://ids.lib.harvard.edu/ids/iiif/25286607/info.json").expect("literal parses")
}

#[test]
fn well_formed_document_round_trips_field_for_field() {
    let info = parse_info(FULL_DOC).expect("document parses");
    assert_eq!(info.context, "http://iiif.io/api/image/2/context.json");
    assert_eq!(info.id, "https://ids.lib.harvard.edu/ids/iiif/25286607");
    assert_eq!(info.protocol, "http://iiif.io/api/image");
    assert_eq!(info.width, 2550);
    assert_eq!(info.height, 3400);
    assert_eq!(info.sizes.len(), 2);
    assert_eq!(info.sizes[0].width, 159);
    assert_eq!(info.sizes[0].height, 212);
    assert_eq!(info.sizes[1].width, 318);
    assert_eq!(info.sizes[1].height, 425);
    assert_eq!(info.tiles.len(), 1);
    assert_eq!(info.tiles[0].width, 256);
    assert_eq!(info.tiles[0].height, 0);
    assert_eq!(info.tiles[0].scale_factors, vec![1, 2, 4, 8, 16]);
    assert_eq!(info.attribution.len(), 1);
    assert_eq!(info.attribution[0].value, "Provided by Harvard University");
    assert_eq!(info.attribution[0].language, "en");
    assert_eq!(info.logo.id, "https://example.org/logo.png");
    assert_eq!(info.logo.service.id, "https://example.org/logo-service");
    assert_eq!(info.license, vec!["http://example.org/license"]);
    assert_eq!(info.profile.0, "http://iiif.io/api/image/2/level2.json");
    assert_eq!(info.profile.1.formats, vec!["jpg", "png"]);
    assert_eq!(info.profile.1.qualities, vec!["default", "color", "gray"]);
    assert_eq!(info.profile.1.supports, vec!["regionByPct", "sizeByW"]);
    assert_eq!(info.service.len(), 1);
    assert_eq!(
        info.service[0].context,
        "http://iiif.io/api/annex/services/physdim/1/context.json"
    );
    assert_eq!(info.service[0].profile, "http://iiif.io/api/annex/services/physdim");
    assert_eq!(info.service[0].id, "https://example.org/physdim");
    assert_eq!(info.service[0].physical_units, "in");
    assert_eq!(info.service[0].physical_scale.as_f64(), Some(0.0025));
}

#[test]
fn info_response_getters_mirror_the_document() {
    let r = classify_info_response(200, info_url(), FULL_DOC.to_string());
    let resp = r.ok().expect("200 with well-formed body succeeds");
    assert_eq!(resp.status_code, 200);
    assert_eq!(resp.raw_json, FULL_DOC);
    assert_eq!(resp.width(), 2550);
    assert_eq!(resp.height(), 3400);
    let sizes = resp.sizes();
    assert_eq!(sizes.len(), 2);
    assert_eq!(sizes[1].width, 318);
    let tiles = resp.tiles();
    assert_eq!(tiles.len(), 1);
    assert_eq!(tiles[0].scale_factors, vec![1, 2, 4, 8, 16]);
    let attribution = resp.attribution();
    assert_eq!(attribution[0].value, "Provided by Harvard University");
    assert_eq!(resp.license(), vec!["http://example.org/license"]);
    assert_eq!(resp.formats(), vec!["jpg", "png"]);
    assert_eq!(resp.qualities(), vec!["default", "color", "gray"]);
    assert_eq!(resp.supports(), vec!["regionByPct", "sizeByW"]);
}

#[test]
fn absent_optional_fields_fall_back_to_empty_values() {
    let doc = r#"{"@id": "i", "protocol": "p", "width": 10, "height": 20}"#;
    let info = parse_info(doc).expect("minimal document parses");
    assert_eq!(info.context, "");
    assert_eq!(info.width, 10);
    assert_eq!(info.height, 20);
    assert!(info.sizes.is_empty());
    assert!(info.tiles.is_empty());
    assert!(info.attribution.is_empty());
    assert_eq!(info.logo.id, "");
    assert_eq!(info.logo.service.profile, "");
    assert!(info.license.is_empty());
    assert_eq!(info.profile.0, "");
    assert!(info.profile.1.formats.is_empty());
    assert!(info.service.is_empty());
}

#[test]
fn parsed_documents_compare_field_for_field() {
    let x = parse_info(FULL_DOC).expect("document parses");
    let y = parse_info(FULL_DOC).expect("document parses");
    assert_eq!(x, y);
    let z = x.clone();
    assert_eq!(z, y);
    let minimal =
        parse_info(r#"{"@id": "i", "protocol": "p", "width": 10, "height": 20}"#).expect("parses");
    assert_ne!(x, minimal);
}

#[test]
fn cloned_info_response_keeps_every_field() {
    let r = classify_info_response(200, info_url(), FULL_DOC.to_string())
        .ok()
        .expect("succeeds");
    let copy = r.clone();
    assert_eq!(copy.status_code, r.status_code);
    assert_eq!(copy.raw_json, r.raw_json);
    assert_eq!(copy.info, r.info);
    assert_eq!(copy.url, r.url);
}

#[test]
fn text_that_is_not_json_is_a_syntax_error() {
    assert!(matches!(parse_info("not json"), Err(InfoError::Json(_))));
}

#[test]
fn missing_required_fields_are_schema_errors() {
    let no_width = r#"{"@id": "i", "protocol": "p", "height": 20}"#;
    assert!(matches!(parse_info(no_width), Err(InfoError::Schema)));
    let no_id = r#"{"protocol": "p", "width": 10, "height": 20}"#;
    assert!(matches!(parse_info(no_id), Err(InfoError::Schema)));
}

#[test]
fn fields_of_the_wrong_shape_are_schema_errors() {
    let width_string = r#"{"@id": "i", "protocol": "p", "width": "10", "height": 20}"#;
    assert!(matches!(parse_info(width_string), Err(InfoError::Schema)));
    let short_profile =
        r#"{"@id": "i", "protocol": "p", "width": 1, "height": 2, "profile": ["level"]}"#;
    assert!(matches!(parse_info(short_profile), Err(InfoError::Schema)));
    let tile_without_factors =
        r#"{"@id": "i", "protocol": "p", "width": 1, "height": 2, "tiles": [{"width": 256}]}"#;
    assert!(matches!(parse_info(tile_without_factors), Err(InfoError::Schema)));
    let scale_not_numeric = r#"{"@id": "i", "protocol": "p", "width": 1, "height": 2,
      "service": [{"@context": "c", "profile": "q", "physicalScale": "big",
                   "physicalUnits": "in", "@id": "s"}]}"#;
    assert!(matches!(parse_info(scale_not_numeric), Err(InfoError::Schema)));
}

#[test]
fn info_request_with_404_yields_the_typed_http_error() {
    let r = classify_info_response(404, info_url(), String::new());
    match r {
        Err(ApiError::Http(e)) => {
            assert_eq!(e.status_code, 404);
            assert!(e.details.starts_with("The image resource specified by identifier"));
        },
        _ => panic!("expected the typed http error"),
    }
}

#[test]
fn info_request_with_bad_body_yields_the_info_error() {
    let r = classify_info_response(200, info_url(), "{".to_string());
    assert!(matches!(r, Err(ApiError::Info(InfoError::Json(_)))));
    let r = classify_info_response(200, info_url(), "{}".to_string());
    assert!(matches!(r, Err(ApiError::Info(InfoError::Schema))));
}
