use vstd::prelude::*;

verus! {

/// The greeting served at the root.
pub const WELCOME_MESSAGE: &'static str = "Welcome to the SnapitWorld API!";

/// The address of the OpenAPI document.
pub const OPENAPI_JSON_PATH: &'static str = "/api/docs/openapi.json";

/// The body of an echo request.
#[derive(Clone, Debug)]
pub struct EchoRequest {
    pub message: String,
}

/// The body of an echo reply.
#[derive(Clone, Debug)]
pub struct EchoResponse {
    pub message: String,
}

/// Answers an echo request with its own message.
pub fn echo(body: EchoRequest) -> (r: EchoResponse)
    ensures
        r.message == body.message,
{
    EchoResponse { message: body.message }
}

/// The routes that serve the API's documentation.
#[derive(Clone, Copy, Debug)]
pub struct OpenAPIRoutes;

} // verus!
