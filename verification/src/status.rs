//! Errors answered to clients: a status code and a message.

use vstd::prelude::*;

verus! {

/// The status codes the service answers with.
#[derive(Clone, Copy, Debug, PartialEq, Eq, Structural)]
pub enum Code {
    /// The request itself is not acceptable.
    InvalidArgument,
    /// The service failed while handling an acceptable request.
    Internal,
}

/// An error status sent to a client.
pub struct RpcError {
    pub code: Code,
    pub message: String,
}

pub struct RpcErrorView {
    pub code: Code,
    pub message: Seq<char>,
}

impl View for RpcError {
    type V = RpcErrorView;

    open spec fn view(&self) -> RpcErrorView {
        RpcErrorView { code: self.code, message: self.message@ }
    }
}

impl RpcError {
    /// An error with the given code and message.
    pub fn new(code: Code, message: &str) -> (error: RpcError)
        ensures
            error@ == (RpcErrorView { code, message: message@ }),
    {
        RpcError { code, message: String::from_str(message) }
    }
}

} // verus!
