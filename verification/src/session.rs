//! Session state: the connection, authentication and login flags with the
//! last milestone payloads, and the single transition the event sink applies.
//!
//! The state is written only through `apply_event`, whose contract is the
//! transition function `spec_apply_trader_event` / `spec_apply_md_event`:
//! in particular a disconnect resets every flag and cached payload in one
//! step, and only a fresh `Connected` event sets `connected` again.

use vstd::prelude::*;

use crate::event::{spec_rsp_success, Event};
use crate::types::{RspAuthenticateField, RspUserLoginField};

verus! {

/// The trader session's lock-guarded record: connection, authentication and
/// login flags, and the last authentication and login payloads.
#[derive(Debug, Clone, Copy)]
pub struct AsyncTraderState {
    /// Whether the transport is connected.
    pub connected: bool,
    /// Whether the session is authenticated.
    pub authenticated: bool,
    /// Whether the session is logged in.
    pub logged_in: bool,
    /// The last successful authentication payload.
    pub auth_info: Option<RspAuthenticateField>,
    /// The last successful login payload.
    pub login_info: Option<RspUserLoginField>,
}

impl Default for AsyncTraderState {
    fn default() -> (r: Self)
        ensures
            r == AsyncTraderState::spec_initial(),
    {
        AsyncTraderState {
            connected: false,
            authenticated: false,
            logged_in: false,
            auth_info: None,
            login_info: None,
        }
    }
}

impl AsyncTraderState {
    /// The state before any event: disconnected, nothing cached.
    pub open spec fn spec_initial() -> Self {
        AsyncTraderState {
            connected: false,
            authenticated: false,
            logged_in: false,
            auth_info: Option::None,
            login_info: Option::None,
        }
    }

    /// Applies one event to the state; the contract is exactly
    /// `spec_apply_trader_event`.
    pub fn apply_event<P: Copy>(&mut self, e: &Event<P>)
        ensures
            *final(self) == spec_apply_trader_event(*old(self), *e),
    {
        match e {
            Event::Connected => {
                self.connected = true;
            },
            Event::Disconnected(_) => {
                self.connected = false;
                self.authenticated = false;
                self.logged_in = false;
                self.auth_info = None;
                self.login_info = None;
            },
            Event::AuthenticateResponse { rsp_authenticate, rsp_info, is_last, .. } => {
                let success = crate::event::rsp_success(rsp_info);
                if success && *is_last {
                    self.authenticated = true;
                    self.auth_info = *rsp_authenticate;
                }
            },
            Event::LoginResponse { user_login, rsp_info, is_last, .. } => {
                let success = crate::event::rsp_success(rsp_info);
                if success && *is_last {
                    self.logged_in = true;
                    self.login_info = *user_login;
                }
            },
            Event::LogoutResponse { is_last, .. } => {
                if *is_last {
                    self.logged_in = false;
                    self.login_info = None;
                }
            },
            _ => {},
        }
    }
}

/// The transition the event sink applies to the trader session state:
/// `Connected` sets the connected flag; `Disconnected` resets every flag and
/// cached payload in one step; a successful terminal authentication or login
/// frame commits its payload; a terminal logout clears the login; every
/// other event leaves the state unchanged.
pub open spec fn spec_apply_trader_event<P>(s: AsyncTraderState, e: Event<P>) -> AsyncTraderState {
    match e {
        Event::Connected => AsyncTraderState { connected: true, ..s },
        Event::Disconnected(_) => AsyncTraderState::spec_initial(),
        Event::AuthenticateResponse { rsp_authenticate, rsp_info, is_last, .. } => {
            if spec_rsp_success(rsp_info) && is_last {
                AsyncTraderState { authenticated: true, auth_info: rsp_authenticate, ..s }
            } else {
                s
            }
        },
        Event::LoginResponse { user_login, rsp_info, is_last, .. } => {
            if spec_rsp_success(rsp_info) && is_last {
                AsyncTraderState { logged_in: true, login_info: user_login, ..s }
            } else {
                s
            }
        },
        Event::LogoutResponse { is_last, .. } => {
            if is_last {
                AsyncTraderState { logged_in: false, login_info: Option::None, ..s }
            } else {
                s
            }
        },
        _ => s,
    }
}

/// The trader state after a whole sequence of events, first event first.
pub open spec fn spec_apply_trader_events<P>(
    s: AsyncTraderState,
    es: Seq<Event<P>>,
) -> AsyncTraderState
    decreases es.len(),
{
    if es.len() == 0 {
        s
    } else {
        spec_apply_trader_events(spec_apply_trader_event(s, es.first()), es.drop_first())
    }
}

/// A disconnect resets the connected, authenticated and logged-in flags and
/// clears both cached payloads, atomically: the single transition yields the
/// initial state, whatever the state was.
pub proof fn lemma_disconnect_resets_session<P>(s: AsyncTraderState, reason: i32)
    ensures
        spec_apply_trader_event(s, Event::<P>::Disconnected(reason))
            == AsyncTraderState::spec_initial(),
{
}

/// After a disconnect, no sequence of events that contains no `Connected`
/// event can make the session connected again: a waiter for the connection
/// blocks until a fresh `Connected` event arrives.
pub proof fn lemma_connected_needs_fresh_connect<P>(s: AsyncTraderState, es: Seq<Event<P>>)
    requires
        !s.connected,
        forall|i: int| 0 <= i < es.len() ==> !(es[i] is Connected),
    ensures
        !spec_apply_trader_events(s, es).connected,
    decreases es.len(),
{
    if es.len() > 0 {
        let s1 = spec_apply_trader_event(s, es.first());
        assert(!(es.first() is Connected));
        assert(!s1.connected);
        assert(forall|i: int|
            0 <= i < es.drop_first().len() ==> !(#[trigger] es.drop_first()[i] is Connected));
        lemma_connected_needs_fresh_connect(s1, es.drop_first());
    }
}

/// The market-data session's record: connection and login flags and the last
/// login payload.
#[derive(Debug, Clone, Copy)]
pub struct AsyncMdState {
    /// Whether the transport is connected.
    pub connected: bool,
    /// Whether the session is logged in.
    pub logged_in: bool,
    /// The last successful login payload.
    pub login_info: Option<RspUserLoginField>,
}

impl Default for AsyncMdState {
    fn default() -> (r: Self)
        ensures
            r == AsyncMdState::spec_initial(),
    {
        AsyncMdState { connected: false, logged_in: false, login_info: None }
    }
}

impl AsyncMdState {
    /// The state before any event.
    pub open spec fn spec_initial() -> Self {
        AsyncMdState { connected: false, logged_in: false, login_info: Option::None }
    }

    /// Applies one event to the state; the contract is exactly
    /// `spec_apply_md_event`.
    pub fn apply_event<P: Copy>(&mut self, e: &Event<P>)
        ensures
            *final(self) == spec_apply_md_event(*old(self), *e),
    {
        match e {
            Event::Connected => {
                self.connected = true;
            },
            Event::Disconnected(_) => {
                self.connected = false;
                self.logged_in = false;
                self.login_info = None;
            },
            Event::LoginResponse { user_login, rsp_info, is_last, .. } => {
                let success = crate::event::rsp_success(rsp_info);
                if success && *is_last {
                    self.logged_in = true;
                    self.login_info = *user_login;
                }
            },
            Event::LogoutResponse { is_last, .. } => {
                if *is_last {
                    self.logged_in = false;
                    self.login_info = None;
                }
            },
            _ => {},
        }
    }
}

/// The transition the event sink applies to the market-data session state.
pub open spec fn spec_apply_md_event<P>(s: AsyncMdState, e: Event<P>) -> AsyncMdState {
    match e {
        Event::Connected => AsyncMdState { connected: true, ..s },
        Event::Disconnected(_) => AsyncMdState::spec_initial(),
        Event::LoginResponse { user_login, rsp_info, is_last, .. } => {
            if spec_rsp_success(rsp_info) && is_last {
                AsyncMdState { logged_in: true, login_info: user_login, ..s }
            } else {
                s
            }
        },
        Event::LogoutResponse { is_last, .. } => {
            if is_last {
                AsyncMdState { logged_in: false, login_info: Option::None, ..s }
            } else {
                s
            }
        },
        _ => s,
    }
}

} // verus!
