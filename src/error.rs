use vstd::prelude::*;

verus! {

/// An error of the service, with the text shown to the client.
#[derive(Clone, Debug)]
pub struct ServerError {
    pub reason: String,
}

impl ServerError {
    pub fn new(reason: &str) -> (r: ServerError)
        ensures
            r.reason@ == reason@,
    {
        ServerError { reason: reason.to_owned() }
    }
}

/// Why a request was turned down.
#[derive(Clone, Debug)]
pub enum RejectionKind {
    /// No route matched.
    NotFound,
    /// A handler failed with this error.
    Server(ServerError),
    /// The query string could not be read.
    InvalidQuery,
    /// Anything else.
    Unhandled,
}

/// The status code and message sent back for a rejected request.
#[derive(Clone, Debug)]
pub struct RejectionReply {
    pub status: u16,
    pub message: String,
}

pub const STATUS_BAD_REQUEST: u16 = 400;

pub const STATUS_UNAUTHORIZED: u16 = 401;

pub const STATUS_NOT_FOUND: u16 = 404;

pub const STATUS_INTERNAL_SERVER_ERROR: u16 = 500;

/// The reply to a rejected request: an unmatched route is 404 "Not Found", a
/// service error is 401 with its own reason, an unreadable query is 400
/// "Invalid Query", and anything else is 500 "Internal Server Error".
pub fn rejection_reply(kind: &RejectionKind) -> (r: RejectionReply)
    ensures
        match kind {
            RejectionKind::NotFound => r.status == STATUS_NOT_FOUND && r.message@ == "Not Found"@,
            RejectionKind::Server(e) => r.status == STATUS_UNAUTHORIZED && r.message@ == e.reason@,
            RejectionKind::InvalidQuery => r.status == STATUS_BAD_REQUEST && r.message@
                == "Invalid Query"@,
            RejectionKind::Unhandled => r.status == STATUS_INTERNAL_SERVER_ERROR && r.message@
                == "Internal Server Error"@,
        },
{
    match kind {
        RejectionKind::NotFound => RejectionReply {
            status: STATUS_NOT_FOUND,
            message: "Not Found".to_owned(),
        },
        RejectionKind::Server(e) => RejectionReply {
            status: STATUS_UNAUTHORIZED,
            message: e.reason.as_str().to_owned(),
        },
        RejectionKind::InvalidQuery => RejectionReply {
            status: STATUS_BAD_REQUEST,
            message: "Invalid Query".to_owned(),
        },
        RejectionKind::Unhandled => RejectionReply {
            status: STATUS_INTERNAL_SERVER_ERROR,
            message: "Internal Server Error".to_owned(),
        },
    }
}

} // verus!
