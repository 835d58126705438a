use iiif::{Absolute, Format, Percentage, Quality, Region, Rotation, Size};
use iiif::{fmt_u64, fmt_usize, format_floats, join_coords};

#[test]
fn absolute_region_serializes_to_joined_pixels() {
    let r = Region::Abs(Absolute { x: 1, y: 2, w: 3, h: 4 });
    assert_eq!(r.to_string(), "1,2,3,4");
}

#[test]
fn percentage_region_serializes_with_trimmed_decimals() {
    // The coordinates 1.2345, 2.0, 3.03 and 4.0 percent, held in
    // thousandths with three decimals kept.
    let r = Region::Pct(Percentage { x: 1234, y: 2000, w: 3030, h: 4000 });
    assert_eq!(r.to_string(), "pct:1.234,2,3.03,4");
}

#[test]
fn full_and_square_regions_serialize_to_keywords() {
    assert_eq!(Region::Full.to_string(), "full");
    assert_eq!(Region::Square.to_string(), "square");
}

#[test]
fn width_size_serializes_with_trailing_comma() {
    assert_eq!(Size::Width(500).to_string(), "500,");
}

#[test]
fn best_fit_size_serializes_with_exclamation_mark() {
    assert_eq!(Size::BestFit(200, 200).to_string(), "!200,200");
}

#[test]
fn remaining_size_forms_serialize_to_grammar() {
    assert_eq!(Size::Full.to_string(), "full");
    assert_eq!(Size::Max.to_string(), "max");
    assert_eq!(Size::Height(300).to_string(), ",300");
    assert_eq!(Size::Percent(50).to_string(), "pct:50");
    assert_eq!(Size::WidthHeight(225, 100).to_string(), "225,100");
}

#[test]
fn rotation_serializes_degrees_and_mirror_flag() {
    assert_eq!(Rotation::Normal(0).to_string(), "0");
    assert_eq!(Rotation::Mirror(0).to_string(), "!0");
    assert_eq!(Rotation::Normal(90000).to_string(), "90");
    assert_eq!(Rotation::Normal(270000).to_string(), "270");
    assert_eq!(Rotation::Normal(22500).to_string(), "22.5");
    assert_eq!(Rotation::Mirror(180000).to_string(), "!180");
}

#[test]
fn quality_serializes_to_keywords() {
    assert_eq!(Quality::ServerDefault.to_string(), "default");
    assert_eq!(Quality::Color.to_string(), "color");
    assert_eq!(Quality::Gray.to_string(), "gray");
    assert_eq!(Quality::Bitonal.to_string(), "bitonal");
}

#[test]
fn format_serializes_to_extension() {
    assert_eq!(Format::Jpg.to_string(), "jpg");
    assert_eq!(Format::Tif.to_string(), "tif");
    assert_eq!(Format::Png.to_string(), "png");
    assert_eq!(Format::Gif.to_string(), "gif");
    assert_eq!(Format::Jp2.to_string(), "jp2");
    assert_eq!(Format::Pdf.to_string(), "pdf");
    assert_eq!(Format::Webp.to_string(), "webp");
}

#[test]
fn parameter_defaults_serialize_to_canonical_defaults() {
    assert_eq!(Region::default().to_string(), "full");
    assert_eq!(Size::default().to_string(), "full");
    assert_eq!(Rotation::default().to_string(), "0");
    assert_eq!(Quality::default().to_string(), "default");
    assert_eq!(Format::default().to_string(), "jpg");
}

#[test]
fn decimal_formatting_is_exact() {
    assert_eq!(fmt_u64(0), "0");
    assert_eq!(fmt_u64(7), "7");
    assert_eq!(fmt_u64(10), "10");
    assert_eq!(fmt_u64(1234567890), "1234567890");
    assert_eq!(fmt_usize(65535), "65535");
}

#[test]
fn thousandths_formatting_trims_trailing_zeros() {
    let rendered = format_floats(vec![0, 500, 1000, 1500, 3030, 12345678, 101]);
    assert_eq!(
        rendered,
        vec!["0", "0.5", "1", "1.5", "3.03", "12345.678", "0.101"]
    );
}

#[test]
fn join_coords_joins_with_commas() {
    assert_eq!(join_coords("1", "2", "3", "4"), "1,2,3,4");
    assert_eq!(join_coords("a", "b", "c", "d"), "a,b,c,d");
}
