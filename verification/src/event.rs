//! The closed event vocabulary of the bridge.
//!
//! Every native callback becomes exactly one immutable value of `Event`,
//! which then fans out to the session state, the correlation table and the
//! streaming channel. The payload of generic responses and pushes is a type
//! parameter: the bridge treats it as opaque data.

use vstd::prelude::*;

use crate::types::{RspAuthenticateField, RspInfoField, RspUserLoginField};

verus! {

/// One callback invocation, as an immutable tagged value.
///
/// `P` is the payload type of generic responses and unsolicited pushes.
#[derive(Debug, Clone, Copy)]
pub enum Event<P> {
    /// The transport connected.
    Connected,
    /// The transport disconnected, with the vendor's reason code.
    Disconnected(i32),
    /// A heartbeat lapse warning, with the lapse in seconds.
    HeartbeatWarning(i32),
    /// An authentication response.
    AuthenticateResponse {
        /// The parsed response, if the callback carried one.
        rsp_authenticate: Option<RspAuthenticateField>,
        /// The status envelope, if the callback carried one.
        rsp_info: Option<RspInfoField>,
        /// The request this frame answers.
        request_id: i32,
        /// Whether this is the terminal frame.
        is_last: bool,
    },
    /// A login response.
    LoginResponse {
        /// The parsed response, if the callback carried one.
        user_login: Option<RspUserLoginField>,
        /// The status envelope, if the callback carried one.
        rsp_info: Option<RspInfoField>,
        /// The request this frame answers.
        request_id: i32,
        /// Whether this is the terminal frame.
        is_last: bool,
    },
    /// A logout response.
    LogoutResponse {
        /// The status envelope, if the callback carried one.
        rsp_info: Option<RspInfoField>,
        /// The request this frame answers.
        request_id: i32,
        /// Whether this is the terminal frame.
        is_last: bool,
    },
    /// A stand-alone error response.
    ErrorResponse {
        /// The status envelope, if the callback carried one.
        rsp_info: Option<RspInfoField>,
        /// The request this frame answers.
        request_id: i32,
        /// Whether this is the terminal frame.
        is_last: bool,
    },
    /// A single-shot response that resolves its pending request.
    Response {
        /// The payload, if the callback carried one.
        payload: Option<P>,
        /// The status envelope, if the callback carried one.
        rsp_info: Option<RspInfoField>,
        /// The request this frame answers.
        request_id: i32,
        /// Whether this is the terminal frame.
        is_last: bool,
    },
    /// One frame of a possibly multi-frame query response, delivered through
    /// the streaming channel and accumulated by the caller.
    QueryResponse {
        /// The payload, if the callback carried one.
        payload: Option<P>,
        /// The status envelope, if the callback carried one.
        rsp_info: Option<RspInfoField>,
        /// The request this frame answers.
        request_id: i32,
        /// Whether this is the terminal frame.
        is_last: bool,
    },
    /// An unsolicited push.
    Push(P),
}

/// Success of a status envelope: absent, or error code zero.
pub open spec fn spec_rsp_success(rsp_info: Option<RspInfoField>) -> bool {
    match rsp_info {
        Option::None => true,
        Option::Some(r) => r.error_id == 0,
    }
}

impl<P> Event<P> {
    /// The request id this event resolves through the correlation table, if
    /// any. Query frames and pushes resolve nothing: queries are accumulated
    /// from the streaming channel, pushes answer no request.
    pub open spec fn spec_correlated_id(self) -> Option<i32> {
        match self {
            Event::AuthenticateResponse { request_id, .. } => Option::Some(request_id),
            Event::LoginResponse { request_id, .. } => Option::Some(request_id),
            Event::LogoutResponse { request_id, .. } => Option::Some(request_id),
            Event::ErrorResponse { request_id, .. } => Option::Some(request_id),
            Event::Response { request_id, .. } => Option::Some(request_id),
            _ => Option::None,
        }
    }

    /// Executable form of `spec_correlated_id`.
    pub fn correlated_id(&self) -> (r: Option<i32>)
        ensures
            r == self.spec_correlated_id(),
    {
        match self {
            Event::AuthenticateResponse { request_id, .. } => Some(*request_id),
            Event::LoginResponse { request_id, .. } => Some(*request_id),
            Event::LogoutResponse { request_id, .. } => Some(*request_id),
            Event::ErrorResponse { request_id, .. } => Some(*request_id),
            Event::Response { request_id, .. } => Some(*request_id),
            _ => None,
        }
    }
}

/// Executable form of `spec_rsp_success`.
pub fn rsp_success(rsp_info: &Option<RspInfoField>) -> (r: bool)
    ensures
        r == spec_rsp_success(*rsp_info),
{
    match rsp_info {
        None => true,
        Some(info) => info.is_success(),
    }
}

} // verus!
