//! The transport capability: fetch the text found at a URL.
use vstd::prelude::*;

verus! {

/// Why a fetch failed, in words for the user.
#[derive(Debug)]
pub struct RequestError {
    pub message: String,
}

/// Fetches the body found at a URL. Implemented over HTTP by the program,
/// and by stand-ins in tests.
pub trait Request {
    fn get(&self, url: String) -> Result<String, RequestError>;
}

} // verus!
