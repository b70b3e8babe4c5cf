//! Current-weather lookup: builds the forecast query for a coordinate, fetches
//! it through an injectable transport, decodes the reply and classifies the sky.
pub mod coordinate;
pub mod json;
pub mod request;
pub mod sky_cover;
pub mod weather;
