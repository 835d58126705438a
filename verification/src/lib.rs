pub mod api;
pub mod errors;
pub mod json;
pub mod parameters;
pub mod responses;
pub mod uri;
pub mod utils;

pub use api::Image;
pub use errors::{parse_status, ApiError, ResponseError};
pub use json::{parse_info, InfoError};
pub use parameters::{Absolute, Format, Percentage, Quality, Region, Rotation, Size};
pub use responses::{
    classify_image_response, classify_info_response, Attribution, Info, InfoResponse, InfoSize,
    Logo, Profile, Response, Service, Service2, Tile,
};
pub use uri::UrlError;
pub use url::Url;
pub use utils::{fmt_u64, fmt_usize, format_floats, join_coords};
