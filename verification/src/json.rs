use vstd::prelude::*;

use crate::responses::{Attribution, Info, InfoSize, Logo, Profile, Service, Service2, Tile};

verus! {

#[verifier::external_type_specification]
#[verifier::external_body]
pub struct ExValue(serde_json::Value);

#[verifier::external_type_specification]
#[verifier::external_body]
pub struct ExJsonError(serde_json::Error);

/// Whether serde_json reads the text as one JSON document.
pub uninterp spec fn json_ok(text: Seq<char>) -> bool;

/// The JSON value serde_json reads from the text, on the texts it accepts.
pub uninterp spec fn json_of(text: Seq<char>) -> serde_json::Value;

/// The field serde_json::Value::get answers for a string key: the value
/// under the key when this value is an object holding it, and None
/// otherwise.
pub uninterp spec fn json_field_of(v: serde_json::Value, key: Seq<char>) -> Option<
    serde_json::Value,
>;

/// The number serde_json::Value::as_u64 answers: the value as an unsigned
/// integer when it is one, and None otherwise.
pub uninterp spec fn json_u64_of(v: serde_json::Value) -> Option<u64>;

/// The text serde_json::Value::as_str answers: the value's text when it is
/// a JSON string, and None otherwise.
pub uninterp spec fn json_str_of(v: serde_json::Value) -> Option<Seq<char>>;

/// The elements serde_json::Value::as_array answers: the value's elements
/// when it is a JSON array, and None otherwise.
pub uninterp spec fn json_array_of(v: serde_json::Value) -> Option<Seq<serde_json::Value>>;

/// Whether the value is a JSON number, as serde_json::Value::is_number
/// answers it.
pub uninterp spec fn json_is_number(v: serde_json::Value) -> bool;

/// Why a metadata document could not be read: the text is not JSON, or the
/// JSON does not have the shape of an `info.json` document.
#[derive(Debug)]
pub enum InfoError {
    Json(serde_json::Error),
    Schema,
}

/// Relies on serde_json::from_str::<serde_json::Value>: reads one JSON
/// document from the text, or reports why it cannot; which texts it
/// accepts, and what it reads from them, is a function of the text alone.
#[verifier::external_body]
fn parse_json(text: &str) -> (r: Result<serde_json::Value, serde_json::Error>)
    ensures
        (r is Ok) == json_ok(text@),
        r matches Ok(v) ==> v == json_of(text@),
{
    serde_json::from_str(text)
}

/// Relies on serde_json::Value::get with a string key: the field when the
/// value is an object holding the key, and None otherwise.
#[verifier::external_body]
fn json_field<'a>(v: &'a serde_json::Value, key: &str) -> (r: Option<&'a serde_json::Value>)
    ensures
        (r is Some) == (json_field_of(*v, key@) is Some),
        r matches Some(f) ==> json_field_of(*v, key@) == Some(*f),
{
    v.get(key)
}

/// Relies on serde_json::Value::as_u64: the number when the value is an
/// unsigned integer, and None otherwise.
pub assume_specification[ serde_json::Value::as_u64 ](v: &serde_json::Value) -> (r: Option<u64>)
    ensures
        r == json_u64_of(*v),
;

/// Relies on serde_json::Value::as_str: the text when the value is a JSON
/// string, and None otherwise.
pub assume_specification<'a>[ serde_json::Value::as_str ](v: &'a serde_json::Value) -> (r: Option<
    &'a str,
>)
    ensures
        (r is Some) == (json_str_of(*v) is Some),
        r matches Some(s) ==> json_str_of(*v) == Some(s@),
;

/// Relies on serde_json::Value::as_array: the elements when the value is a
/// JSON array, and None otherwise.
pub assume_specification<'a>[ serde_json::Value::as_array ](v: &'a serde_json::Value) -> (r: Option<
    &'a Vec<serde_json::Value>,
>)
    ensures
        (r is Some) == (json_array_of(*v) is Some),
        r matches Some(a) ==> json_array_of(*v) == Some(a@),
;

/// Relies on serde_json::Value::is_number: whether the value is a JSON
/// number.
pub assume_specification[ serde_json::Value::is_number ](v: &serde_json::Value) -> (r: bool)
    ensures
        r == json_is_number(*v),
;

/// The verdict of serde_json::Value's equality on two values: deep
/// structural equality of the JSON they hold.
pub uninterp spec fn json_eq(a: serde_json::Value, b: serde_json::Value) -> bool;

/// Relies on <serde_json::Value as PartialEq>::eq.
pub assume_specification[ <serde_json::Value as PartialEq>::eq ](
    a: &serde_json::Value,
    b: &serde_json::Value,
) -> (r: bool)
    ensures
        r == json_eq(*a, *b),
;

/// Relies on serde_json::Value::clone: a value equal to the one cloned.
pub assume_specification[ <serde_json::Value as Clone>::clone ](v: &serde_json::Value) -> (r:
    serde_json::Value)
    ensures
        r == *v,
;

/// The text under the key, when the field is there and is a JSON string.
pub open spec fn spec_str_field(v: serde_json::Value, key: Seq<char>) -> Option<Seq<char>> {
    match json_field_of(v, key) {
        Some(f) => json_str_of(f),
        None => None,
    }
}

/// The number under the key, when the field is there and is an unsigned
/// integer that fits a pixel count.
pub open spec fn spec_usize_field(v: serde_json::Value, key: Seq<char>) -> Option<int> {
    match json_field_of(v, key) {
        Some(f) => match json_u64_of(f) {
            Some(n) => if n <= usize::MAX {
                Some(n as int)
            } else {
                None
            },
            None => None,
        },
        None => None,
    }
}

/// The field under the key, when it is a JSON string.
fn get_str(v: &serde_json::Value, key: &str) -> (r: Option<String>)
    ensures
        (r is Some) == (spec_str_field(*v, key@) is Some),
        r matches Some(s) ==> spec_str_field(*v, key@) == Some(s@),
{
    match json_field(v, key) {
        Some(f) => match f.as_str() {
            Some(s) => Some(s.to_owned()),
            None => None,
        },
        None => None,
    }
}

/// The field under the key, when it is an unsigned integer that fits the
/// platform's pixel counts.
fn get_usize(v: &serde_json::Value, key: &str) -> (r: Option<usize>)
    ensures
        (r is Some) == (spec_usize_field(*v, key@) is Some),
        r matches Some(n) ==> spec_usize_field(*v, key@) == Some(n as int),
{
    match json_field(v, key) {
        Some(f) => match f.as_u64() {
            Some(n) => {
                if n <= usize::MAX as u64 {
                    Some(n as usize)
                } else {
                    None
                }
            },
            None => None,
        },
        None => None,
    }
}

/// Whether every element of the array is a JSON string.
pub open spec fn all_strings_wf(arr: Seq<serde_json::Value>) -> bool {
    forall|i: int| 0 <= i < arr.len() ==> (#[trigger] json_str_of(arr[i])) is Some
}

/// Whether the texts are exactly the array's strings, in order.
pub open spec fn all_strings_match(out: Seq<String>, arr: Seq<serde_json::Value>) -> bool {
    out.len() == arr.len() && forall|i: int|
        0 <= i < arr.len() ==> (#[trigger] json_str_of(arr[i])) == Some(out[i]@)
}

/// Whether the value is an array of JSON strings.
pub open spec fn strings_wf(v: serde_json::Value) -> bool {
    json_array_of(v) is Some && all_strings_wf(json_array_of(v)->Some_0)
}

/// Whether the texts are exactly the value's strings, in order.
pub open spec fn strings_match(out: Seq<String>, v: serde_json::Value) -> bool {
    json_array_of(v) is Some && all_strings_match(out, json_array_of(v)->Some_0)
}

/// Reads an array of JSON strings.
fn parse_strings(v: &serde_json::Value) -> (r: Result<Vec<String>, InfoError>)
    ensures
        (r is Ok) == strings_wf(*v),
        r matches Ok(out) ==> strings_match(out@, *v),
        r matches Err(e) ==> e is Schema,
{
    let arr = match v.as_array() {
        Some(a) => a,
        None => { return Err(InfoError::Schema) },
    };
    let ghost ga = arr@;
    proof {
        assert(json_array_of(*v)->Some_0 == ga);
    }
    let mut out: Vec<String> = Vec::new();
    let mut i: usize = 0;
    while i < arr.len()
        invariant
            arr@ == ga,
            json_array_of(*v) == Some(ga),
            i <= ga.len(),
            out@.len() == i,
            forall|j: int| 0 <= j < i ==> (#[trigger] json_str_of(ga[j])) == Some(out@[j]@),
        decreases ga.len() - i,
    {
        match arr[i].as_str() {
            Some(s) => out.push(s.to_owned()),
            None => { return Err(InfoError::Schema) },
        }
        i = i + 1;
    }
    Ok(out)
}

/// Whether the value is an object with a width and a height.
pub open spec fn size_wf(v: serde_json::Value) -> bool {
    spec_usize_field(v, "width"@) is Some && spec_usize_field(v, "height"@) is Some
}

/// Whether the pair carries exactly the value's width and height.
pub open spec fn size_match(s: InfoSize, v: serde_json::Value) -> bool {
    spec_usize_field(v, "width"@) == Some(s.width as int) && spec_usize_field(v, "height"@) == Some(
        s.height as int,
    )
}

/// Reads one height and width pair.
fn parse_size(v: &serde_json::Value) -> (r: Result<InfoSize, InfoError>)
    ensures
        (r is Ok) == size_wf(*v),
        r matches Ok(s) ==> size_match(s, *v),
        r matches Err(e) ==> e is Schema,
{
    let width = match get_usize(v, "width") {
        Some(w) => w,
        None => { return Err(InfoError::Schema) },
    };
    let height = match get_usize(v, "height") {
        Some(h) => h,
        None => { return Err(InfoError::Schema) },
    };
    Ok(InfoSize { width, height })
}

/// Whether every element of the array is a well-formed size pair.
pub open spec fn all_sizes_wf(arr: Seq<serde_json::Value>) -> bool {
    forall|i: int| 0 <= i < arr.len() ==> #[trigger] size_wf(arr[i])
}

/// Whether the pairs are exactly the array's size pairs, in order.
pub open spec fn all_sizes_match(out: Seq<InfoSize>, arr: Seq<serde_json::Value>) -> bool {
    out.len() == arr.len() && forall|i: int|
        0 <= i < arr.len() ==> #[trigger] size_match(out[i], arr[i])
}

/// Whether the value is an array of well-formed size pairs.
pub open spec fn sizes_wf(v: serde_json::Value) -> bool {
    json_array_of(v) is Some && all_sizes_wf(json_array_of(v)->Some_0)
}

/// Whether the pairs are exactly the value's size pairs, in order.
pub open spec fn sizes_match(out: Seq<InfoSize>, v: serde_json::Value) -> bool {
    json_array_of(v) is Some && all_sizes_match(out, json_array_of(v)->Some_0)
}

/// Reads the array of size pairs.
fn parse_sizes(v: &serde_json::Value) -> (r: Result<Vec<InfoSize>, InfoError>)
    ensures
        (r is Ok) == sizes_wf(*v),
        r matches Ok(out) ==> sizes_match(out@, *v),
        r matches Err(e) ==> e is Schema,
{
    let arr = match v.as_array() {
        Some(a) => a,
        None => { return Err(InfoError::Schema) },
    };
    let ghost ga = arr@;
    proof {
        assert(json_array_of(*v)->Some_0 == ga);
    }
    let mut out: Vec<InfoSize> = Vec::new();
    let mut i: usize = 0;
    while i < arr.len()
        invariant
            arr@ == ga,
            json_array_of(*v) == Some(ga),
            i <= ga.len(),
            out@.len() == i,
            forall|j: int| 0 <= j < i ==> #[trigger] size_wf(ga[j]),
            forall|j: int| 0 <= j < i ==> #[trigger] size_match(out@[j], ga[j]),
        decreases ga.len() - i,
    {
        match parse_size(&arr[i]) {
            Ok(s) => out.push(s),
            Err(e) => {
                proof {
                    assert(!size_wf(ga[i as int]));
                    assert(!all_sizes_wf(ga));
                    assert(!sizes_wf(*v));
                }
                return Err(e);
            },
        }
        i = i + 1;
    }
    Ok(out)
}

/// Whether the value is an object with a width, scale factors that are
/// unsigned integers fitting pixel counts, and, if a height stands there,
/// one of the same kind.
pub open spec fn tile_wf(v: serde_json::Value) -> bool {
    &&& spec_usize_field(v, "width"@) is Some
    &&& match json_field_of(v, "height"@) {
        None => true,
        Some(h) => match json_u64_of(h) {
            Some(n) => n <= usize::MAX,
            None => false,
        },
    }
    &&& match json_field_of(v, "scaleFactors"@) {
        None => false,
        Some(f) => match json_array_of(f) {
            Some(arr) => forall|i: int|
                0 <= i < arr.len() ==> match #[trigger] json_u64_of(arr[i]) {
                    Some(n) => n <= usize::MAX,
                    None => false,
                },
            None => false,
        },
    }
}

/// Whether the tile carries exactly the value's width, scale factors in
/// order, and height, with zero standing for an absent height.
pub open spec fn tile_match(t: Tile, v: serde_json::Value) -> bool {
    &&& spec_usize_field(v, "width"@) == Some(t.width as int)
    &&& match json_field_of(v, "height"@) {
        None => t.height == 0,
        Some(h) => json_u64_of(h) == Some(t.height as u64),
    }
    &&& match json_field_of(v, "scaleFactors"@) {
        None => false,
        Some(f) => match json_array_of(f) {
            Some(arr) => t.scale_factors@.len() == arr.len() && forall|i: int|
                0 <= i < arr.len() ==> #[trigger] json_u64_of(arr[i]) == Some(
                    t.scale_factors@[i] as u64,
                ),
            None => false,
        },
    }
}

/// Reads one tile description: the width and scale factors must be there,
/// a missing height stands for zero.
fn parse_tile(v: &serde_json::Value) -> (r: Result<Tile, InfoError>)
    ensures
        (r is Ok) == tile_wf(*v),
        r matches Ok(t) ==> tile_match(t, *v),
        r matches Err(e) ==> e is Schema,
{
    let width = match get_usize(v, "width") {
        Some(w) => w,
        None => { return Err(InfoError::Schema) },
    };
    let height = match json_field(v, "height") {
        Some(h) => match h.as_u64() {
            Some(n) => {
                if n <= usize::MAX as u64 {
                    n as usize
                } else {
                    return Err(InfoError::Schema);
                }
            },
            None => { return Err(InfoError::Schema) },
        },
        None => 0,
    };
    let factors_field = match json_field(v, "scaleFactors") {
        Some(f) => f,
        None => { return Err(InfoError::Schema) },
    };
    let factors_arr = match factors_field.as_array() {
        Some(a) => a,
        None => { return Err(InfoError::Schema) },
    };
    let ghost ga = factors_arr@;
    let mut scale_factors: Vec<usize> = Vec::new();
    let mut i: usize = 0;
    while i < factors_arr.len()
        invariant
            factors_arr@ == ga,
            json_array_of(json_field_of(*v, "scaleFactors"@).unwrap()) == Some(ga),
            json_field_of(*v, "scaleFactors"@) is Some,
            i <= ga.len(),
            scale_factors@.len() == i,
            forall|j: int|
                0 <= j < i ==> #[trigger] json_u64_of(ga[j]) == Some(scale_factors@[j] as u64),
        decreases ga.len() - i,
    {
        match factors_arr[i].as_u64() {
            Some(n) => {
                if n <= usize::MAX as u64 {
                    scale_factors.push(n as usize);
                } else {
                    return Err(InfoError::Schema);
                }
            },
            None => { return Err(InfoError::Schema) },
        }
        i = i + 1;
    }
    Ok(Tile { width, scale_factors, height })
}

/// Whether every element of the array is a well-formed tile description.
pub open spec fn all_tiles_wf(arr: Seq<serde_json::Value>) -> bool {
    forall|i: int| 0 <= i < arr.len() ==> #[trigger] tile_wf(arr[i])
}

/// Whether the tiles are exactly the array's tile descriptions, in order.
pub open spec fn all_tiles_match(out: Seq<Tile>, arr: Seq<serde_json::Value>) -> bool {
    out.len() == arr.len() && forall|i: int|
        0 <= i < arr.len() ==> #[trigger] tile_match(out[i], arr[i])
}

/// Whether the value is an array of well-formed tile descriptions.
pub open spec fn tiles_wf(v: serde_json::Value) -> bool {
    json_array_of(v) is Some && all_tiles_wf(json_array_of(v)->Some_0)
}

/// Whether the tiles are exactly the value's tile descriptions, in order.
pub open spec fn tiles_match(out: Seq<Tile>, v: serde_json::Value) -> bool {
    json_array_of(v) is Some && all_tiles_match(out, json_array_of(v)->Some_0)
}

/// Reads the array of tile descriptions.
fn parse_tiles(v: &serde_json::Value) -> (r: Result<Vec<Tile>, InfoError>)
    ensures
        (r is Ok) == tiles_wf(*v),
        r matches Ok(out) ==> tiles_match(out@, *v),
        r matches Err(e) ==> e is Schema,
{
    let arr = match v.as_array() {
        Some(a) => a,
        None => { return Err(InfoError::Schema) },
    };
    let ghost ga = arr@;
    proof {
        assert(json_array_of(*v)->Some_0 == ga);
    }
    let mut out: Vec<Tile> = Vec::new();
    let mut i: usize = 0;
    while i < arr.len()
        invariant
            arr@ == ga,
            json_array_of(*v) == Some(ga),
            i <= ga.len(),
            out@.len() == i,
            forall|j: int| 0 <= j < i ==> #[trigger] tile_wf(ga[j]),
            forall|j: int| 0 <= j < i ==> #[trigger] tile_match(out@[j], ga[j]),
        decreases ga.len() - i,
    {
        match parse_tile(&arr[i]) {
            Ok(t) => out.push(t),
            Err(e) => {
                proof {
                    assert(!tile_wf(ga[i as int]));
                    assert(!all_tiles_wf(ga));
                    assert(!tiles_wf(*v));
                }
                return Err(e);
            },
        }
        i = i + 1;
    }
    Ok(out)
}

/// Whether the value is an object with a statement and a language.
pub open spec fn attribution_wf(v: serde_json::Value) -> bool {
    spec_str_field(v, "@value"@) is Some && spec_str_field(v, "@language"@) is Some
}

/// Whether the statement carries exactly the value's text and language.
pub open spec fn attribution_match(a: Attribution, v: serde_json::Value) -> bool {
    spec_str_field(v, "@value"@) == Some(a.value@) && spec_str_field(v, "@language"@) == Some(
        a.language@,
    )
}

/// Whether every element of the array is a well-formed statement.
pub open spec fn all_attributions_wf(arr: Seq<serde_json::Value>) -> bool {
    forall|i: int| 0 <= i < arr.len() ==> #[trigger] attribution_wf(arr[i])
}

/// Whether the statements are exactly the array's statements, in order.
pub open spec fn all_attributions_match(out: Seq<Attribution>, arr: Seq<serde_json::Value>) -> bool {
    out.len() == arr.len() && forall|i: int|
        0 <= i < arr.len() ==> #[trigger] attribution_match(out[i], arr[i])
}

/// Whether the value is an array of well-formed attribution statements.
pub open spec fn attributions_wf(v: serde_json::Value) -> bool {
    json_array_of(v) is Some && all_attributions_wf(json_array_of(v)->Some_0)
}

/// Whether the statements are exactly the value's statements, in order.
pub open spec fn attributions_match(out: Seq<Attribution>, v: serde_json::Value) -> bool {
    json_array_of(v) is Some && all_attributions_match(out, json_array_of(v)->Some_0)
}

/// Reads the array of attribution statements.
fn parse_attribution(v: &serde_json::Value) -> (r: Result<Vec<Attribution>, InfoError>)
    ensures
        (r is Ok) == attributions_wf(*v),
        r matches Ok(out) ==> attributions_match(out@, *v),
        r matches Err(e) ==> e is Schema,
{
    let arr = match v.as_array() {
        Some(a) => a,
        None => { return Err(InfoError::Schema) },
    };
    let ghost ga = arr@;
    proof {
        assert(json_array_of(*v)->Some_0 == ga);
    }
    let mut out: Vec<Attribution> = Vec::new();
    let mut i: usize = 0;
    while i < arr.len()
        invariant
            arr@ == ga,
            json_array_of(*v) == Some(ga),
            i <= ga.len(),
            out@.len() == i,
            forall|j: int| 0 <= j < i ==> #[trigger] attribution_wf(ga[j]),
            forall|j: int| 0 <= j < i ==> #[trigger] attribution_match(out@[j], ga[j]),
        decreases ga.len() - i,
    {
        let value = match get_str(&arr[i], "@value") {
            Some(s) => s,
            None => {
                proof {
                    assert(!attribution_wf(ga[i as int]));
                    assert(!all_attributions_wf(ga));
                    assert(!attributions_wf(*v));
                }
                return Err(InfoError::Schema);
            },
        };
        let language = match get_str(&arr[i], "@language") {
            Some(s) => s,
            None => {
                proof {
                    assert(!attribution_wf(ga[i as int]));
                    assert(!all_attributions_wf(ga));
                    assert(!attributions_wf(*v));
                }
                return Err(InfoError::Schema);
            },
        };
        out.push(Attribution { value, language });
        i = i + 1;
    }
    Ok(out)
}

/// Whether the value is an object with the three texts of a logo service.
pub open spec fn service_wf(v: serde_json::Value) -> bool {
    spec_str_field(v, "@context"@) is Some && spec_str_field(v, "@id"@) is Some && spec_str_field(
        v,
        "profile"@,
    ) is Some
}

/// Whether the description carries exactly the value's three texts.
pub open spec fn service_match(s: Service, v: serde_json::Value) -> bool {
    spec_str_field(v, "@context"@) == Some(s.context@) && spec_str_field(v, "@id"@) == Some(s.id@)
        && spec_str_field(v, "profile"@) == Some(s.profile@)
}

/// Reads a logo's service description.
fn parse_service(v: &serde_json::Value) -> (r: Result<Service, InfoError>)
    ensures
        (r is Ok) == service_wf(*v),
        r matches Ok(s) ==> service_match(s, *v),
        r matches Err(e) ==> e is Schema,
{
    let context = match get_str(v, "@context") {
        Some(s) => s,
        None => { return Err(InfoError::Schema) },
    };
    let id = match get_str(v, "@id") {
        Some(s) => s,
        None => { return Err(InfoError::Schema) },
    };
    let profile = match get_str(v, "profile") {
        Some(s) => s,
        None => { return Err(InfoError::Schema) },
    };
    Ok(Service { context, id, profile })
}

/// Whether the value is an object with a logo's identifier and a
/// well-formed service description.
pub open spec fn logo_wf(v: serde_json::Value) -> bool {
    &&& spec_str_field(v, "@id"@) is Some
    &&& match json_field_of(v, "service"@) {
        Some(f) => service_wf(f),
        None => false,
    }
}

/// Whether the logo carries exactly the value's identifier and service.
pub open spec fn logo_match(l: Logo, v: serde_json::Value) -> bool {
    &&& spec_str_field(v, "@id"@) == Some(l.id@)
    &&& match json_field_of(v, "service"@) {
        Some(f) => service_match(l.service, f),
        None => false,
    }
}

/// Reads the providing institution's logo.
fn parse_logo(v: &serde_json::Value) -> (r: Result<Logo, InfoError>)
    ensures
        (r is Ok) == logo_wf(*v),
        r matches Ok(l) ==> logo_match(l, *v),
        r matches Err(e) ==> e is Schema,
{
    let id = match get_str(v, "@id") {
        Some(s) => s,
        None => { return Err(InfoError::Schema) },
    };
    let service_field = match json_field(v, "service") {
        Some(f) => f,
        None => { return Err(InfoError::Schema) },
    };
    let service = match parse_service(service_field) {
        Ok(s) => s,
        Err(e) => { return Err(e) },
    };
    Ok(Logo { id, service })
}

/// Whether the value is a two-element array of the compliance level text
/// and a capabilities object with formats, qualities and supports.
pub open spec fn profile_wf(v: serde_json::Value) -> bool {
    match json_array_of(v) {
        Some(arr) => {
            &&& arr.len() == 2
            &&& json_str_of(arr[0]) is Some
            &&& match json_field_of(arr[1], "formats"@) {
                Some(f) => strings_wf(f),
                None => false,
            }
            &&& match json_field_of(arr[1], "qualities"@) {
                Some(f) => strings_wf(f),
                None => false,
            }
            &&& match json_field_of(arr[1], "supports"@) {
                Some(f) => strings_wf(f),
                None => false,
            }
        },
        None => false,
    }
}

/// Whether the pair carries exactly the value's level and string lists.
pub open spec fn profile_match(p: (String, Profile), v: serde_json::Value) -> bool {
    match json_array_of(v) {
        Some(arr) => {
            &&& arr.len() == 2
            &&& json_str_of(arr[0]) == Some(p.0@)
            &&& match json_field_of(arr[1], "formats"@) {
                Some(f) => strings_match(p.1.formats@, f),
                None => false,
            }
            &&& match json_field_of(arr[1], "qualities"@) {
                Some(f) => strings_match(p.1.qualities@, f),
                None => false,
            }
            &&& match json_field_of(arr[1], "supports"@) {
                Some(f) => strings_match(p.1.supports@, f),
                None => false,
            }
        },
        None => false,
    }
}

/// Reads the profile: a two-element array of the compliance level and the
/// capabilities object.
fn parse_profile(v: &serde_json::Value) -> (r: Result<(String, Profile), InfoError>)
    ensures
        (r is Ok) == profile_wf(*v),
        r matches Ok(p) ==> profile_match(p, *v),
        r matches Err(e) ==> e is Schema,
{
    let arr = match v.as_array() {
        Some(a) => a,
        None => { return Err(InfoError::Schema) },
    };
    if arr.len() != 2 {
        return Err(InfoError::Schema);
    }
    let level = match arr[0].as_str() {
        Some(s) => s.to_owned(),
        None => { return Err(InfoError::Schema) },
    };
    let caps = &arr[1];
    let formats_field = match json_field(caps, "formats") {
        Some(f) => f,
        None => { return Err(InfoError::Schema) },
    };
    let formats = match parse_strings(formats_field) {
        Ok(x) => x,
        Err(e) => { return Err(e) },
    };
    let qualities_field = match json_field(caps, "qualities") {
        Some(f) => f,
        None => { return Err(InfoError::Schema) },
    };
    let qualities = match parse_strings(qualities_field) {
        Ok(x) => x,
        Err(e) => { return Err(e) },
    };
    let supports_field = match json_field(caps, "supports") {
        Some(f) => f,
        None => { return Err(InfoError::Schema) },
    };
    let supports = match parse_strings(supports_field) {
        Ok(x) => x,
        Err(e) => { return Err(e) },
    };
    Ok((level, Profile { formats, qualities, supports }))
}

/// Whether the value is an object with the four texts of a
/// physical-dimensions service and a numeric scale.
pub open spec fn service_entry_wf(v: serde_json::Value) -> bool {
    &&& spec_str_field(v, "@context"@) is Some
    &&& spec_str_field(v, "profile"@) is Some
    &&& spec_str_field(v, "physicalUnits"@) is Some
    &&& spec_str_field(v, "@id"@) is Some
    &&& match json_field_of(v, "physicalScale"@) {
        Some(f) => json_is_number(f),
        None => false,
    }
}

/// Whether the entry carries exactly the value's texts and its scale.
pub open spec fn service_entry_match(s: Service2, v: serde_json::Value) -> bool {
    &&& spec_str_field(v, "@context"@) == Some(s.context@)
    &&& spec_str_field(v, "profile"@) == Some(s.profile@)
    &&& spec_str_field(v, "physicalUnits"@) == Some(s.physical_units@)
    &&& spec_str_field(v, "@id"@) == Some(s.id@)
    &&& json_field_of(v, "physicalScale"@) == Some(s.physical_scale)
}

/// Whether every element of the array is a well-formed service entry.
pub open spec fn all_services_wf(arr: Seq<serde_json::Value>) -> bool {
    forall|i: int| 0 <= i < arr.len() ==> #[trigger] service_entry_wf(arr[i])
}

/// Whether the entries are exactly the array's entries, in order.
pub open spec fn all_services_match(out: Seq<Service2>, arr: Seq<serde_json::Value>) -> bool {
    out.len() == arr.len() && forall|i: int|
        0 <= i < arr.len() ==> #[trigger] service_entry_match(out[i], arr[i])
}

/// Whether the value is an array of well-formed service entries.
pub open spec fn services_wf(v: serde_json::Value) -> bool {
    json_array_of(v) is Some && all_services_wf(json_array_of(v)->Some_0)
}

/// Whether the entries are exactly the value's entries, in order.
pub open spec fn services_match(out: Seq<Service2>, v: serde_json::Value) -> bool {
    json_array_of(v) is Some && all_services_match(out, json_array_of(v)->Some_0)
}

/// Reads the array of physical-dimensions services.
fn parse_services(v: &serde_json::Value) -> (r: Result<Vec<Service2>, InfoError>)
    ensures
        (r is Ok) == services_wf(*v),
        r matches Ok(out) ==> services_match(out@, *v),
        r matches Err(e) ==> e is Schema,
{
    let arr = match v.as_array() {
        Some(a) => a,
        None => { return Err(InfoError::Schema) },
    };
    let ghost ga = arr@;
    proof {
        assert(json_array_of(*v)->Some_0 == ga);
    }
    let mut out: Vec<Service2> = Vec::new();
    let mut i: usize = 0;
    while i < arr.len()
        invariant
            arr@ == ga,
            json_array_of(*v) == Some(ga),
            i <= ga.len(),
            out@.len() == i,
            forall|j: int| 0 <= j < i ==> #[trigger] service_entry_wf(ga[j]),
            forall|j: int| 0 <= j < i ==> #[trigger] service_entry_match(out@[j], ga[j]),
        decreases ga.len() - i,
    {
        let entry = &arr[i];
        let context = match get_str(entry, "@context") {
            Some(s) => s,
            None => {
                proof {
                    assert(!service_entry_wf(ga[i as int]));
                    assert(!all_services_wf(ga));
                    assert(!services_wf(*v));
                }
                return Err(InfoError::Schema);
            },
        };
        let profile = match get_str(entry, "profile") {
            Some(s) => s,
            None => {
                proof {
                    assert(!service_entry_wf(ga[i as int]));
                    assert(!all_services_wf(ga));
                    assert(!services_wf(*v));
                }
                return Err(InfoError::Schema);
            },
        };
        let physical_units = match get_str(entry, "physicalUnits") {
            Some(s) => s,
            None => {
                proof {
                    assert(!service_entry_wf(ga[i as int]));
                    assert(!all_services_wf(ga));
                    assert(!services_wf(*v));
                }
                return Err(InfoError::Schema);
            },
        };
        let id = match get_str(entry, "@id") {
            Some(s) => s,
            None => {
                proof {
                    assert(!service_entry_wf(ga[i as int]));
                    assert(!all_services_wf(ga));
                    assert(!services_wf(*v));
                }
                return Err(InfoError::Schema);
            },
        };
        let scale_field = match json_field(entry, "physicalScale") {
            Some(f) => f,
            None => {
                proof {
                    assert(!service_entry_wf(ga[i as int]));
                    assert(!all_services_wf(ga));
                    assert(!services_wf(*v));
                }
                return Err(InfoError::Schema);
            },
        };
        if !scale_field.is_number() {
            proof {
                assert(!service_entry_wf(ga[i as int]));
                assert(!services_wf(*v));
            }
            return Err(InfoError::Schema);
        }
        let physical_scale = scale_field.clone();
        out.push(Service2 { context, profile, physical_scale, physical_units, id });
        i = i + 1;
    }
    Ok(out)
}

/// Whether the value has the shape of an `info.json` document: the
/// identifier, protocol, width and height must be there; each other field
/// may be absent, but one that stands there must be well formed.
pub open spec fn info_wf(v: serde_json::Value) -> bool {
    &&& spec_str_field(v, "@id"@) is Some
    &&& spec_str_field(v, "protocol"@) is Some
    &&& spec_usize_field(v, "width"@) is Some
    &&& spec_usize_field(v, "height"@) is Some
    &&& match json_field_of(v, "@context"@) {
        Some(c) => json_str_of(c) is Some,
        None => true,
    }
    &&& match json_field_of(v, "sizes"@) {
        Some(f) => sizes_wf(f),
        None => true,
    }
    &&& match json_field_of(v, "tiles"@) {
        Some(f) => tiles_wf(f),
        None => true,
    }
    &&& match json_field_of(v, "attribution"@) {
        Some(f) => attributions_wf(f),
        None => true,
    }
    &&& match json_field_of(v, "logo"@) {
        Some(f) => logo_wf(f),
        None => true,
    }
    &&& match json_field_of(v, "license"@) {
        Some(f) => strings_wf(f),
        None => true,
    }
    &&& match json_field_of(v, "profile"@) {
        Some(f) => profile_wf(f),
        None => true,
    }
    &&& match json_field_of(v, "service"@) {
        Some(f) => services_wf(f),
        None => true,
    }
}

/// Whether the typed document carries exactly the value's fields, an
/// absent optional field standing as its empty fallback.
pub open spec fn info_match(info: Info, v: serde_json::Value) -> bool {
    &&& spec_str_field(v, "@id"@) == Some(info.id@)
    &&& spec_str_field(v, "protocol"@) == Some(info.protocol@)
    &&& spec_usize_field(v, "width"@) == Some(info.width as int)
    &&& spec_usize_field(v, "height"@) == Some(info.height as int)
    &&& match json_field_of(v, "@context"@) {
        Some(c) => json_str_of(c) == Some(info.context@),
        None => info.context@ == Seq::<char>::empty(),
    }
    &&& match json_field_of(v, "sizes"@) {
        Some(f) => sizes_match(info.sizes@, f),
        None => info.sizes@ == Seq::<InfoSize>::empty(),
    }
    &&& match json_field_of(v, "tiles"@) {
        Some(f) => tiles_match(info.tiles@, f),
        None => info.tiles@ == Seq::<Tile>::empty(),
    }
    &&& match json_field_of(v, "attribution"@) {
        Some(f) => attributions_match(info.attribution@, f),
        None => info.attribution@ == Seq::<Attribution>::empty(),
    }
    &&& match json_field_of(v, "logo"@) {
        Some(f) => logo_match(info.logo, f),
        None => info.logo.id@ == Seq::<char>::empty() && info.logo.service.context@
            == Seq::<char>::empty() && info.logo.service.id@ == Seq::<char>::empty()
            && info.logo.service.profile@ == Seq::<char>::empty(),
    }
    &&& match json_field_of(v, "license"@) {
        Some(f) => strings_match(info.license@, f),
        None => info.license@ == Seq::<String>::empty(),
    }
    &&& match json_field_of(v, "profile"@) {
        Some(f) => profile_match(info.profile, f),
        None => info.profile.0@ == Seq::<char>::empty() && info.profile.1.formats@
            == Seq::<String>::empty() && info.profile.1.qualities@ == Seq::<String>::empty()
            && info.profile.1.supports@ == Seq::<String>::empty(),
    }
    &&& match json_field_of(v, "service"@) {
        Some(f) => services_match(info.service@, f),
        None => info.service@ == Seq::<Service2>::empty(),
    }
}

/// Reads an `info.json` document into its typed form.  Succeeds exactly
/// when the text is JSON of that shape, and the typed form then carries
/// the document's fields exactly; the error says whether the text was not
/// JSON at all or the JSON not such a document.
pub fn parse_info(text: &str) -> (r: Result<Info, InfoError>)
    ensures
        (r is Ok) == (json_ok(text@) && info_wf(json_of(text@))),
        r matches Ok(info) ==> info_match(info, json_of(text@)),
        r matches Err(e) ==> match e {
            InfoError::Json(_) => !json_ok(text@),
            InfoError::Schema => json_ok(text@) && !info_wf(json_of(text@)),
        },
{
    let v = match parse_json(text) {
        Ok(v) => v,
        Err(e) => { return Err(InfoError::Json(e)) },
    };
    let id = match get_str(&v, "@id") {
        Some(s) => s,
        None => { return Err(InfoError::Schema) },
    };
    let protocol = match get_str(&v, "protocol") {
        Some(s) => s,
        None => { return Err(InfoError::Schema) },
    };
    let width = match get_usize(&v, "width") {
        Some(w) => w,
        None => { return Err(InfoError::Schema) },
    };
    let height = match get_usize(&v, "height") {
        Some(h) => h,
        None => { return Err(InfoError::Schema) },
    };
    let context = match json_field(&v, "@context") {
        Some(c) => match c.as_str() {
            Some(s) => s.to_owned(),
            None => { return Err(InfoError::Schema) },
        },
        None => String::new(),
    };
    let sizes = match json_field(&v, "sizes") {
        Some(f) => match parse_sizes(f) {
            Ok(x) => x,
            Err(e) => { return Err(e) },
        },
        None => Vec::new(),
    };
    let tiles = match json_field(&v, "tiles") {
        Some(f) => match parse_tiles(f) {
            Ok(x) => x,
            Err(e) => { return Err(e) },
        },
        None => Vec::new(),
    };
    let attribution = match json_field(&v, "attribution") {
        Some(f) => match parse_attribution(f) {
            Ok(x) => x,
            Err(e) => { return Err(e) },
        },
        None => Vec::new(),
    };
    let logo = match json_field(&v, "logo") {
        Some(f) => match parse_logo(f) {
            Ok(x) => x,
            Err(e) => { return Err(e) },
        },
        None => Logo::default(),
    };
    let license = match json_field(&v, "license") {
        Some(f) => match parse_strings(f) {
            Ok(x) => x,
            Err(e) => { return Err(e) },
        },
        None => Vec::new(),
    };
    let profile = match json_field(&v, "profile") {
        Some(f) => match parse_profile(f) {
            Ok(x) => x,
            Err(e) => { return Err(e) },
        },
        None => (String::new(), Profile::default()),
    };
    let service = match json_field(&v, "service") {
        Some(f) => match parse_services(f) {
            Ok(x) => x,
            Err(e) => { return Err(e) },
        },
        None => Vec::new(),
    };
    Ok(Info {
        context,
        id,
        protocol,
        width,
        height,
        sizes,
        tiles,
        attribution,
        logo,
        license,
        profile,
        service,
    })
}

} // verus!
