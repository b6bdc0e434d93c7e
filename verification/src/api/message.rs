use vstd::prelude::*;

verus! {

/// Logical kind of a transport-neutral request.
#[derive(Debug, Clone, Copy, PartialEq, Eq, Structural)]
pub enum ApiMethod {
    /// Mutating or important command.
    Command,
    /// Side-effect-free query.
    Query,
    /// Runtime health probe.
    Health,
}

/// A request as an endpoint receives it.
#[derive(Debug, Clone, PartialEq, Eq)]
pub struct ApiRequest {
    /// Logical request method.
    pub method: ApiMethod,
    /// Transport-neutral endpoint or capability path.
    pub path: String,
    /// Opaque request bytes owned by the caller.
    pub payload: Vec<u8>,
}

/// A response as an endpoint returns it.
#[derive(Debug, Clone, PartialEq, Eq)]
pub struct ApiResponse {
    /// HTTP-compatible status code.
    pub status_code: u16,
    /// Opaque response bytes owned by the endpoint.
    pub payload: Vec<u8>,
}

} // verus!
