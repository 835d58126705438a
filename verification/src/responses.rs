use vstd::prelude::*;

use crate::errors::{status_details, ApiError, ResponseError};
use crate::json::{info_match, info_wf, json_of, json_ok, parse_info, InfoError};
use crate::utils::{copy_strings, copy_usizes};

verus! {

/// A fetched image: the status code the server answered with, the URL the
/// request went to, and the image bytes.
#[derive(Debug)]
pub struct Response {
    pub status_code: u16,
    pub url: url::Url,
    pub image: Vec<u8>,
}

/// One height and width pair the server offers complete images at.
#[derive(Debug, Clone, Copy, PartialEq, Eq, Structural)]
pub struct InfoSize {
    pub width: usize,
    pub height: usize,
}

/// A description of the tiles the server delivers efficiently: their width,
/// optionally their height, and the scale factors they come at.
#[derive(Debug)]
pub struct Tile {
    pub width: usize,
    pub scale_factors: Vec<usize>,
    pub height: usize,
}

/// A copyright or ownership statement in one language.
#[derive(Debug)]
pub struct Attribution {
    pub value: String,
    pub language: String,
}

/// A service description attached to a logo.
#[derive(Debug)]
pub struct Service {
    pub context: String,
    pub id: String,
    pub profile: String,
}

/// The providing institution's logo.
#[derive(Debug)]
pub struct Logo {
    pub id: String,
    pub service: Service,
}

/// The capabilities half of the profile: supported formats, qualities and
/// features.
#[derive(Debug)]
pub struct Profile {
    pub formats: Vec<String>,
    pub qualities: Vec<String>,
    pub supports: Vec<String>,
}

/// A physical-dimensions service attached to the image.  The scale is kept
/// as the JSON number the document carried.
#[derive(Debug)]
pub struct Service2 {
    pub context: String,
    pub profile: String,
    pub physical_scale: serde_json::Value,
    pub physical_units: String,
    pub id: String,
}

/// The typed contents of an image's `info.json` metadata document,
/// immutable once parsed.
#[derive(Debug)]
pub struct Info {
    pub context: String,
    pub id: String,
    pub protocol: String,
    pub width: usize,
    pub height: usize,
    pub sizes: Vec<InfoSize>,
    pub tiles: Vec<Tile>,
    pub attribution: Vec<Attribution>,
    pub logo: Logo,
    pub license: Vec<String>,
    pub profile: (String, Profile),
    pub service: Vec<Service2>,
}

/// A fetched metadata document: the status code, the URL the request went
/// to, the raw JSON text and its typed contents.
#[derive(Debug)]
pub struct InfoResponse {
    pub status_code: u16,
    pub raw_json: String,
    pub info: Info,
    pub url: url::Url,
}

/// Whether a status code reports success.
pub open spec fn is_success(status_code: u16) -> bool {
    200 <= status_code < 300
}

/// Classifies a fetched image by its HTTP status: every 2xx answer hands
/// the body through byte for byte, anything else becomes the typed error
/// for that status code.
pub fn classify_image_response(status_code: u16, url: url::Url, image: Vec<u8>) -> (r: Result<
    Response,
    ResponseError,
>)
    ensures
        is_success(status_code) ==> (r matches Ok(resp) && resp.status_code == status_code
            && resp.url == url && resp.image@ == image@),
        !is_success(status_code) ==> (r matches Err(e) && e.status_code == status_code && e.details@
            == status_details(status_code)),
{
    match status_code {
        200..=299 => Ok(Response { status_code, url, image }),
        _ => Err(ResponseError::new(status_code)),
    }
}

/// Classifies a fetched metadata document by its HTTP status: every 2xx
/// answer has its body read as an `info.json` document, succeeding exactly
/// when the body is JSON of that shape and keeping the raw text beside the
/// typed form; anything else becomes the typed error for that status code.
pub fn classify_info_response(status_code: u16, url: url::Url, raw_json: String) -> (r: Result<
    InfoResponse,
    ApiError,
>)
    ensures
        !is_success(status_code) ==> (r matches Err(ApiError::Http(e)) && e.status_code
            == status_code && e.details@ == status_details(status_code)),
        is_success(status_code) ==> ((r is Ok) == (json_ok(raw_json@) && info_wf(
            json_of(raw_json@),
        ))),
        is_success(status_code) ==> match r {
            Ok(resp) => resp.status_code == status_code && resp.url == url && resp.raw_json@
                == raw_json@ && info_match(resp.info, json_of(raw_json@)),
            Err(e) => e matches ApiError::Info(ie) && ((ie is Json) == !json_ok(raw_json@))
                && (ie matches InfoError::Schema ==> json_ok(raw_json@) && !info_wf(
                json_of(raw_json@),
            )),
        },
{
    match status_code {
        200..=299 => match parse_info(raw_json.as_str()) {
            Ok(info) => Ok(InfoResponse { status_code, raw_json, info, url }),
            Err(e) => Err(ApiError::Info(e)),
        },
        _ => Err(ApiError::Http(ResponseError::new(status_code))),
    }
}

impl Response {
    /// Whether the request succeeded, that is, the status code is in the
    /// range 200 to 299.
    pub fn success(&self) -> (r: bool)
        ensures
            r == is_success(self.status_code),
    {
        match self.status_code {
            200..=299 => true,
            _ => false,
        }
    }
}

/// Whether two tiles carry the same description.
pub open spec fn tile_eq(a: Tile, b: Tile) -> bool {
    a.width == b.width && a.height == b.height && a.scale_factors@ == b.scale_factors@
}

/// Whether two statements carry the same text and language.
pub open spec fn attribution_eq(a: Attribution, b: Attribution) -> bool {
    a.value@ == b.value@ && a.language@ == b.language@
}

/// Whether two logo services carry the same three texts.
pub open spec fn service_eq(a: Service, b: Service) -> bool {
    a.context@ == b.context@ && a.id@ == b.id@ && a.profile@ == b.profile@
}

/// Whether two logos carry the same identifier and service.
pub open spec fn logo_eq(a: Logo, b: Logo) -> bool {
    a.id@ == b.id@ && service_eq(a.service, b.service)
}

/// Whether two capability sets carry the same string lists.
pub open spec fn profile_eq(a: Profile, b: Profile) -> bool {
    crate::utils::strings_seq_eq(a.formats@, b.formats@) && crate::utils::strings_seq_eq(
        a.qualities@,
        b.qualities@,
    ) && crate::utils::strings_seq_eq(a.supports@, b.supports@)
}

/// Whether two service entries carry the same texts and, by the JSON
/// crate's verdict, the same scale.
pub open spec fn service_entry_eq(a: Service2, b: Service2) -> bool {
    a.context@ == b.context@ && a.profile@ == b.profile@ && crate::json::json_eq(
        a.physical_scale,
        b.physical_scale,
    ) && a.physical_units@ == b.physical_units@ && a.id@ == b.id@
}

/// Whether two sequences carry the same tiles in order.
pub open spec fn tiles_seq_eq(a: Seq<Tile>, b: Seq<Tile>) -> bool {
    a.len() == b.len() && forall|i: int| 0 <= i < a.len() ==> #[trigger] tile_eq(a[i], b[i])
}

/// Whether two sequences carry the same statements in order.
pub open spec fn attributions_seq_eq(a: Seq<Attribution>, b: Seq<Attribution>) -> bool {
    a.len() == b.len() && forall|i: int| 0 <= i < a.len() ==> #[trigger] attribution_eq(a[i], b[i])
}

/// Whether two sequences carry the same service entries in order.
pub open spec fn services_seq_eq(a: Seq<Service2>, b: Seq<Service2>) -> bool {
    a.len() == b.len() && forall|i: int|
        0 <= i < a.len() ==> #[trigger] service_entry_eq(a[i], b[i])
}

/// Whether two typed documents carry the same fields.
pub open spec fn info_eq(a: Info, b: Info) -> bool {
    &&& a.context@ == b.context@
    &&& a.id@ == b.id@
    &&& a.protocol@ == b.protocol@
    &&& a.width == b.width
    &&& a.height == b.height
    &&& a.sizes@ == b.sizes@
    &&& tiles_seq_eq(a.tiles@, b.tiles@)
    &&& attributions_seq_eq(a.attribution@, b.attribution@)
    &&& logo_eq(a.logo, b.logo)
    &&& crate::utils::strings_seq_eq(a.license@, b.license@)
    &&& a.profile.0@ == b.profile.0@
    &&& profile_eq(a.profile.1, b.profile.1)
    &&& services_seq_eq(a.service@, b.service@)
}

impl InfoResponse {
    /// The height and width pairs the client should use to request complete
    /// images at sizes the server has available.
    pub fn sizes(&self) -> (r: Vec<InfoSize>)
        ensures
            r@ == self.info.sizes@,
    {
        let mut r: Vec<InfoSize> = Vec::new();
        let mut i: usize = 0;
        while i < self.info.sizes.len()
            invariant
                i <= self.info.sizes@.len(),
                r@ =~= self.info.sizes@.subrange(0, i as int),
            decreases self.info.sizes@.len() - i,
        {
            r.push(self.info.sizes[i]);
            i = i + 1;
        }
        assert(r@ =~= self.info.sizes@);
        r
    }

    /// The width in pixels of the full image.
    pub fn width(&self) -> (r: usize)
        ensures
            r == self.info.width,
    {
        self.info.width
    }

    /// The height in pixels of the full image.
    pub fn height(&self) -> (r: usize)
        ensures
            r == self.info.height,
    {
        self.info.height
    }

    /// The tile descriptions the server delivers efficiently.
    pub fn tiles(&self) -> (r: Vec<Tile>)
        ensures
            r@.len() == self.info.tiles@.len(),
            forall|i: int|
                0 <= i < r@.len() ==> tile_eq(#[trigger] r@[i], self.info.tiles@[i]),
    {
        let mut r: Vec<Tile> = Vec::new();
        let mut i: usize = 0;
        while i < self.info.tiles.len()
            invariant
                i <= self.info.tiles@.len(),
                r@.len() == i,
                forall|j: int| 0 <= j < i ==> tile_eq(#[trigger] r@[j], self.info.tiles@[j]),
            decreases self.info.tiles@.len() - i,
        {
            let t = &self.info.tiles[i];
            r.push(Tile {
                width: t.width,
                scale_factors: copy_usizes(&t.scale_factors),
                height: t.height,
            });
            i = i + 1;
        }
        r
    }

    /// The copyright or ownership statements of the providing institution.
    pub fn attribution(&self) -> (r: Vec<Attribution>)
        ensures
            r@.len() == self.info.attribution@.len(),
            forall|i: int|
                0 <= i < r@.len() ==> #[trigger] r@[i].value@ == self.info.attribution@[i].value@
                    && r@[i].language@ == self.info.attribution@[i].language@,
    {
        let mut r: Vec<Attribution> = Vec::new();
        let mut i: usize = 0;
        while i < self.info.attribution.len()
            invariant
                i <= self.info.attribution@.len(),
                r@.len() == i,
                forall|j: int|
                    0 <= j < i ==> #[trigger] r@[j].value@ == self.info.attribution@[j].value@
                        && r@[j].language@ == self.info.attribution@[j].language@,
            decreases self.info.attribution@.len() - i,
        {
            let a = &self.info.attribution[i];
            r.push(Attribution { value: a.value.clone(), language: a.language.clone() });
            i = i + 1;
        }
        r
    }

    /// Links to the license or rights statements the content stands under.
    pub fn license(&self) -> (r: Vec<String>)
        ensures
            r@ == self.info.license@,
    {
        copy_strings(&self.info.license)
    }

    /// The image formats the server supports for this image.
    pub fn formats(&self) -> (r: Vec<String>)
        ensures
            r@ == self.info.profile.1.formats@,
    {
        copy_strings(&self.info.profile.1.formats)
    }

    /// The quality values the server supports for this image.
    pub fn qualities(&self) -> (r: Vec<String>)
        ensures
            r@ == self.info.profile.1.qualities@,
    {
        copy_strings(&self.info.profile.1.qualities)
    }

    /// The features the server supports for this image.
    pub fn supports(&self) -> (r: Vec<String>)
        ensures
            r@ == self.info.profile.1.supports@,
    {
        copy_strings(&self.info.profile.1.supports)
    }
}

/// Compares two lists of size pairs element for element.
fn sizes_vec_eq(a: &Vec<InfoSize>, b: &Vec<InfoSize>) -> (r: bool)
    ensures
        r == (a@ == b@),
{
    if a.len() != b.len() {
        proof {
            assert(a@ != b@);
        }
        return false;
    }
    let mut i: usize = 0;
    while i < a.len()
        invariant
            a@.len() == b@.len(),
            i <= a@.len(),
            forall|j: int| 0 <= j < i ==> a@[j] == b@[j],
        decreases a@.len() - i,
    {
        if !(a[i] == b[i]) {
            proof {
                assert(a@[i as int] != b@[i as int]);
            }
            return false;
        }
        i = i + 1;
    }
    proof {
        assert(a@ =~= b@);
    }
    true
}

/// Compares two lists of tiles description for description.
fn tiles_vec_eq(a: &Vec<Tile>, b: &Vec<Tile>) -> (r: bool)
    ensures
        r == tiles_seq_eq(a@, b@),
{
    if a.len() != b.len() {
        return false;
    }
    let mut i: usize = 0;
    while i < a.len()
        invariant
            a@.len() == b@.len(),
            i <= a@.len(),
            forall|j: int| 0 <= j < i ==> #[trigger] tile_eq(a@[j], b@[j]),
        decreases a@.len() - i,
    {
        if !(a[i] == b[i]) {
            proof {
                assert(!tile_eq(a@[i as int], b@[i as int]));
            }
            return false;
        }
        i = i + 1;
    }
    true
}

/// Compares two lists of statements element for element.
fn attributions_vec_eq(a: &Vec<Attribution>, b: &Vec<Attribution>) -> (r: bool)
    ensures
        r == attributions_seq_eq(a@, b@),
{
    if a.len() != b.len() {
        return false;
    }
    let mut i: usize = 0;
    while i < a.len()
        invariant
            a@.len() == b@.len(),
            i <= a@.len(),
            forall|j: int| 0 <= j < i ==> #[trigger] attribution_eq(a@[j], b@[j]),
        decreases a@.len() - i,
    {
        if !(a[i] == b[i]) {
            proof {
                assert(!attribution_eq(a@[i as int], b@[i as int]));
            }
            return false;
        }
        i = i + 1;
    }
    true
}

/// Compares two lists of service entries element for element.
fn services_vec_eq(a: &Vec<Service2>, b: &Vec<Service2>) -> (r: bool)
    ensures
        r == services_seq_eq(a@, b@),
{
    if a.len() != b.len() {
        return false;
    }
    let mut i: usize = 0;
    while i < a.len()
        invariant
            a@.len() == b@.len(),
            i <= a@.len(),
            forall|j: int| 0 <= j < i ==> #[trigger] service_entry_eq(a@[j], b@[j]),
        decreases a@.len() - i,
    {
        if !(a[i] == b[i]) {
            proof {
                assert(!service_entry_eq(a@[i as int], b@[i as int]));
            }
            return false;
        }
        i = i + 1;
    }
    true
}

impl PartialEq for Tile {
    fn eq(&self, other: &Tile) -> (r: bool) {
        self.width == other.width && self.height == other.height && crate::utils::usizes_eq(
            &self.scale_factors,
            &other.scale_factors,
        )
    }
}

impl vstd::std_specs::cmp::PartialEqSpecImpl for Tile {
    open spec fn obeys_eq_spec() -> bool {
        true
    }

    open spec fn eq_spec(&self, other: &Tile) -> bool {
        tile_eq(*self, *other)
    }
}

impl PartialEq for Attribution {
    fn eq(&self, other: &Attribution) -> (r: bool) {
        self.value == other.value && self.language == other.language
    }
}

impl vstd::std_specs::cmp::PartialEqSpecImpl for Attribution {
    open spec fn obeys_eq_spec() -> bool {
        true
    }

    open spec fn eq_spec(&self, other: &Attribution) -> bool {
        attribution_eq(*self, *other)
    }
}

impl PartialEq for Service {
    fn eq(&self, other: &Service) -> (r: bool) {
        self.context == other.context && self.id == other.id && self.profile == other.profile
    }
}

impl vstd::std_specs::cmp::PartialEqSpecImpl for Service {
    open spec fn obeys_eq_spec() -> bool {
        true
    }

    open spec fn eq_spec(&self, other: &Service) -> bool {
        service_eq(*self, *other)
    }
}

impl PartialEq for Logo {
    fn eq(&self, other: &Logo) -> (r: bool) {
        self.id == other.id && self.service == other.service
    }
}

impl vstd::std_specs::cmp::PartialEqSpecImpl for Logo {
    open spec fn obeys_eq_spec() -> bool {
        true
    }

    open spec fn eq_spec(&self, other: &Logo) -> bool {
        logo_eq(*self, *other)
    }
}

impl PartialEq for Profile {
    fn eq(&self, other: &Profile) -> (r: bool) {
        crate::utils::strings_eq(&self.formats, &other.formats) && crate::utils::strings_eq(
            &self.qualities,
            &other.qualities,
        ) && crate::utils::strings_eq(&self.supports, &other.supports)
    }
}

impl vstd::std_specs::cmp::PartialEqSpecImpl for Profile {
    open spec fn obeys_eq_spec() -> bool {
        true
    }

    open spec fn eq_spec(&self, other: &Profile) -> bool {
        profile_eq(*self, *other)
    }
}

impl PartialEq for Service2 {
    fn eq(&self, other: &Service2) -> (r: bool) {
        self.context == other.context && self.profile == other.profile && self.physical_scale
            == other.physical_scale && self.physical_units == other.physical_units && self.id
            == other.id
    }
}

impl vstd::std_specs::cmp::PartialEqSpecImpl for Service2 {
    open spec fn obeys_eq_spec() -> bool {
        true
    }

    open spec fn eq_spec(&self, other: &Service2) -> bool {
        service_entry_eq(*self, *other)
    }
}

impl PartialEq for Info {
    fn eq(&self, other: &Info) -> (r: bool) {
        self.context == other.context && self.id == other.id && self.protocol == other.protocol
            && self.width == other.width && self.height == other.height && sizes_vec_eq(
            &self.sizes,
            &other.sizes,
        ) && tiles_vec_eq(&self.tiles, &other.tiles) && attributions_vec_eq(
            &self.attribution,
            &other.attribution,
        ) && self.logo == other.logo && crate::utils::strings_eq(&self.license, &other.license)
            && self.profile.0 == other.profile.0 && self.profile.1 == other.profile.1
            && services_vec_eq(&self.service, &other.service)
    }
}

impl vstd::std_specs::cmp::PartialEqSpecImpl for Info {
    open spec fn obeys_eq_spec() -> bool {
        true
    }

    open spec fn eq_spec(&self, other: &Info) -> bool {
        info_eq(*self, *other)
    }
}

impl Clone for Tile {
    fn clone(&self) -> (r: Self)
        ensures
            tile_eq(r, *self),
    {
        Tile {
            width: self.width,
            scale_factors: crate::utils::copy_usizes(&self.scale_factors),
            height: self.height,
        }
    }
}

impl Clone for Attribution {
    fn clone(&self) -> (r: Self)
        ensures
            r == *self,
    {
        Attribution { value: self.value.clone(), language: self.language.clone() }
    }
}

impl Clone for Service {
    fn clone(&self) -> (r: Self)
        ensures
            r == *self,
    {
        Service {
            context: self.context.clone(),
            id: self.id.clone(),
            profile: self.profile.clone(),
        }
    }
}

impl Clone for Logo {
    fn clone(&self) -> (r: Self)
        ensures
            r == *self,
    {
        Logo { id: self.id.clone(), service: self.service.clone() }
    }
}

impl Clone for Profile {
    fn clone(&self) -> (r: Self)
        ensures
            r.formats@ == self.formats@,
            r.qualities@ == self.qualities@,
            r.supports@ == self.supports@,
    {
        Profile {
            formats: crate::utils::copy_strings(&self.formats),
            qualities: crate::utils::copy_strings(&self.qualities),
            supports: crate::utils::copy_strings(&self.supports),
        }
    }
}

impl Clone for Service2 {
    fn clone(&self) -> (r: Self)
        ensures
            r == *self,
    {
        Service2 {
            context: self.context.clone(),
            profile: self.profile.clone(),
            physical_scale: self.physical_scale.clone(),
            physical_units: self.physical_units.clone(),
            id: self.id.clone(),
        }
    }
}

/// Copies a list of size pairs, keeping every element.
fn copy_sizes(v: &Vec<InfoSize>) -> (r: Vec<InfoSize>)
    ensures
        r@ == v@,
{
    let mut r: Vec<InfoSize> = Vec::new();
    let mut i: usize = 0;
    while i < v.len()
        invariant
            i <= v@.len(),
            r@ =~= v@.subrange(0, i as int),
        decreases v@.len() - i,
    {
        r.push(v[i]);
        i = i + 1;
    }
    assert(r@ =~= v@);
    r
}

/// Copies a list of tiles, keeping every description.
fn copy_tiles(v: &Vec<Tile>) -> (r: Vec<Tile>)
    ensures
        tiles_seq_eq(r@, v@),
{
    let mut r: Vec<Tile> = Vec::new();
    let mut i: usize = 0;
    while i < v.len()
        invariant
            i <= v@.len(),
            r@.len() == i,
            forall|j: int| 0 <= j < i ==> #[trigger] tile_eq(r@[j], v@[j]),
        decreases v@.len() - i,
    {
        r.push(v[i].clone());
        i = i + 1;
    }
    r
}

/// Copies a list of statements, keeping every element.
fn copy_attributions(v: &Vec<Attribution>) -> (r: Vec<Attribution>)
    ensures
        r@ == v@,
{
    let mut r: Vec<Attribution> = Vec::new();
    let mut i: usize = 0;
    while i < v.len()
        invariant
            i <= v@.len(),
            r@ =~= v@.subrange(0, i as int),
        decreases v@.len() - i,
    {
        r.push(v[i].clone());
        i = i + 1;
    }
    assert(r@ =~= v@);
    r
}

/// Copies a list of service entries, keeping every element.
fn copy_services(v: &Vec<Service2>) -> (r: Vec<Service2>)
    ensures
        r@ == v@,
{
    let mut r: Vec<Service2> = Vec::new();
    let mut i: usize = 0;
    while i < v.len()
        invariant
            i <= v@.len(),
            r@ =~= v@.subrange(0, i as int),
        decreases v@.len() - i,
    {
        r.push(v[i].clone());
        i = i + 1;
    }
    assert(r@ =~= v@);
    r
}

/// What a deep copy of a typed document preserves: every field, the tiles
/// description for description.
pub open spec fn info_copied(a: Info, b: Info) -> bool {
    &&& a.context@ == b.context@
    &&& a.id@ == b.id@
    &&& a.protocol@ == b.protocol@
    &&& a.width == b.width
    &&& a.height == b.height
    &&& a.sizes@ == b.sizes@
    &&& tiles_seq_eq(a.tiles@, b.tiles@)
    &&& a.attribution@ == b.attribution@
    &&& a.logo == b.logo
    &&& a.license@ == b.license@
    &&& a.profile.0@ == b.profile.0@
    &&& a.profile.1.formats@ == b.profile.1.formats@
    &&& a.profile.1.qualities@ == b.profile.1.qualities@
    &&& a.profile.1.supports@ == b.profile.1.supports@
    &&& a.service@ == b.service@
}

impl Clone for Info {
    fn clone(&self) -> (r: Self)
        ensures
            info_copied(r, *self),
    {
        Info {
            context: self.context.clone(),
            id: self.id.clone(),
            protocol: self.protocol.clone(),
            width: self.width,
            height: self.height,
            sizes: copy_sizes(&self.sizes),
            tiles: copy_tiles(&self.tiles),
            attribution: copy_attributions(&self.attribution),
            logo: self.logo.clone(),
            license: crate::utils::copy_strings(&self.license),
            profile: (self.profile.0.clone(), self.profile.1.clone()),
            service: copy_services(&self.service),
        }
    }
}

impl Clone for Response {
    fn clone(&self) -> (r: Self)
        ensures
            r.status_code == self.status_code,
            r.url == self.url,
            r.image@ == self.image@,
    {
        Response {
            status_code: self.status_code,
            url: self.url.clone(),
            image: crate::utils::copy_bytes(&self.image),
        }
    }
}

impl Clone for InfoResponse {
    fn clone(&self) -> (r: Self)
        ensures
            r.status_code == self.status_code,
            r.raw_json == self.raw_json,
            info_copied(r.info, self.info),
            r.url == self.url,
    {
        InfoResponse {
            status_code: self.status_code,
            raw_json: self.raw_json.clone(),
            info: self.info.clone(),
            url: self.url.clone(),
        }
    }
}

impl Default for Service {
    fn default() -> (r: Self)
        ensures
            r.context@ == Seq::<char>::empty(),
            r.id@ == Seq::<char>::empty(),
            r.profile@ == Seq::<char>::empty(),
    {
        Service { context: String::new(), id: String::new(), profile: String::new() }
    }
}

impl Default for Logo {
    fn default() -> (r: Self)
        ensures
            r.id@ == Seq::<char>::empty(),
            r.service.context@ == Seq::<char>::empty(),
            r.service.id@ == Seq::<char>::empty(),
            r.service.profile@ == Seq::<char>::empty(),
    {
        Logo { id: String::new(), service: Service::default() }
    }
}

impl Default for Profile {
    fn default() -> (r: Self)
        ensures
            r.formats@ == Seq::<String>::empty(),
            r.qualities@ == Seq::<String>::empty(),
            r.supports@ == Seq::<String>::empty(),
    {
        Profile { formats: Vec::new(), qualities: Vec::new(), supports: Vec::new() }
    }
}

impl Default for InfoSize {
    fn default() -> (r: Self)
        ensures
            r == (InfoSize { width: 0, height: 0 }),
    {
        InfoSize { width: 0, height: 0 }
    }
}

impl Default for Attribution {
    fn default() -> (r: Self)
        ensures
            r.value@ == Seq::<char>::empty(),
            r.language@ == Seq::<char>::empty(),
    {
        Attribution { value: String::new(), language: String::new() }
    }
}

impl Default for Tile {
    fn default() -> (r: Self)
        ensures
            r.width == 0,
            r.height == 0,
            r.scale_factors@ == Seq::<usize>::empty(),
    {
        Tile { width: 0, scale_factors: Vec::new(), height: 0 }
    }
}

} // verus!
