//! The bridge core: session state, correlation table and streaming channel
//! behind one `handle_event` entry point, plus the per-request decision
//! logic of the asynchronous facade.
//!
//! The runtime around the library owns the locks, the native handle and the
//! waiting; everything it decides, it decides by calling these functions.
//! `handle_event` is the event sink: every event updates the session state,
//! reaches the streaming channel, and, if it carries a request id, resolves
//! at most the one pending request with that id.

use vstd::prelude::*;

use crate::channel::EventChannel;
use crate::correlation::{
    spec_claimed, spec_register, spec_remove_id, spec_resolve, spec_resolves, spec_tracks,
    CorrelationTable,
};
use crate::correlation::{lemma_index_of_props, spec_index_of};
use crate::error::{CtpError, CtpResult};
use crate::event::Event;
use crate::session::{spec_apply_md_event, spec_apply_trader_event, AsyncMdState, AsyncTraderState};
use crate::types::{RspAuthenticateField, RspUserLoginField};

verus! {

/// The trader bridge: the one object the runtime locks around every
/// callback invocation and every facade decision.
pub struct TraderBridge<P> {
    state: AsyncTraderState,
    pending: CorrelationTable<P>,
    channel: EventChannel<P>,
    next_request_id: i32,
}

impl<P: Copy> TraderBridge<P> {
    /// The session state, for specification purposes.
    pub closed spec fn spec_state(&self) -> AsyncTraderState {
        self.state
    }

    /// The correlation table's entries, for specification purposes.
    pub closed spec fn spec_pending(&self) -> Seq<crate::correlation::PendingRequest<P>> {
        self.pending@
    }

    /// The streaming channel's queue, for specification purposes.
    pub closed spec fn spec_channel(&self) -> Seq<Event<P>> {
        self.channel@
    }

    /// The next request id to be handed out, for specification purposes.
    pub closed spec fn spec_next_request_id(&self) -> i32 {
        self.next_request_id
    }

    /// Well-formedness: the table's ids are distinct, ids start at one, and
    /// every tracked id was handed out earlier than the next one.
    pub open spec fn wf(&self) -> bool {
        &&& crate::correlation::spec_distinct_ids(self.spec_pending())
        &&& self.spec_next_request_id() >= 1
        &&& forall|i: int|
            0 <= i < self.spec_pending().len() ==> #[trigger] self.spec_pending()[i].request_id
                < self.spec_next_request_id()
    }

    /// A fresh bridge: initial session state, nothing pending, nothing
    /// queued, request ids starting at one.
    pub fn new() -> (r: Self)
        ensures
            r.wf(),
            r.spec_state() == AsyncTraderState::spec_initial(),
            r.spec_pending() == Seq::<crate::correlation::PendingRequest<P>>::empty(),
            r.spec_channel() == Seq::<Event<P>>::empty(),
            r.spec_next_request_id() == 1,
    {
        TraderBridge {
            state: AsyncTraderState::default(),
            pending: CorrelationTable::new(),
            channel: EventChannel::new(),
            next_request_id: 1,
        }
    }

    /// The event sink. Updates the session state first (so a caller woken by
    /// the resolution already sees the committed state), then delivers the
    /// event to the streaming channel, then resolves the pending request the
    /// event answers, if any. Returns whether a waiter is to be woken.
    pub fn handle_event(&mut self, e: Event<P>) -> (woken: bool)
        requires
            old(self).wf(),
        ensures
            final(self).wf(),
            final(self).spec_state() == spec_apply_trader_event(old(self).spec_state(), e),
            final(self).spec_channel() == old(self).spec_channel().push(e),
            final(self).spec_next_request_id() == old(self).spec_next_request_id(),
            match e.spec_correlated_id() {
                Some(id) => final(self).spec_pending() == spec_resolve(
                    old(self).spec_pending(),
                    id,
                    e,
                ) && woken == spec_resolves(old(self).spec_pending(), id),
                None => final(self).spec_pending() == old(self).spec_pending() && !woken,
            },
    {
        self.state.apply_event(&e);
        self.channel.publish(e);
        let woken = match e.correlated_id() {
            Some(id) => self.pending.resolve(id, e),
            None => false,
        };
        proof {
            if e.spec_correlated_id() is Some {
                let id = e.spec_correlated_id()->0;
                lemma_index_of_props(old(self).spec_pending(), id);
                let idx = spec_index_of(old(self).spec_pending(), id);
                if idx >= 0 && old(self).spec_pending()[idx].response is None {
                    assert(forall|i: int|
                        0 <= i < self.spec_pending().len() && i != idx
                            ==> #[trigger] self.spec_pending()[i] == old(self).spec_pending()[i]);
                }
            }
        }
        woken
    }

    /// The id the next allocation will hand out; a caller checks it against
    /// the allocation bound before allocating.
    pub fn peek_next_request_id(&self) -> (r: i32)
        ensures
            r == self.spec_next_request_id(),
    {
        self.next_request_id
    }

    /// Allocates the next request id without registering a waiter: the path
    /// of multi-part queries, which are accumulated from the streaming
    /// channel rather than resolved through the correlation table. Ids are
    /// handed out strictly increasing from one counter, so they never
    /// collide with the single-shot requests' ids.
    pub fn allocate_request_id(&mut self) -> (id: i32)
        requires
            old(self).wf(),
            old(self).spec_next_request_id() < i32::MAX,
        ensures
            final(self).wf(),
            id == old(self).spec_next_request_id(),
            final(self).spec_next_request_id() == id + 1,
            final(self).spec_pending() == old(self).spec_pending(),
            final(self).spec_state() == old(self).spec_state(),
            final(self).spec_channel() == old(self).spec_channel(),
    {
        let id = self.next_request_id;
        self.next_request_id = self.next_request_id + 1;
        id
    }

    /// Allocates the next request id and registers a pending request under
    /// it. Ids are handed out strictly increasing, so two registrations
    /// never collide; the caller then issues the native call with this id.
    pub fn begin_request(&mut self) -> (id: i32)
        requires
            old(self).wf(),
            old(self).spec_next_request_id() < i32::MAX,
        ensures
            final(self).wf(),
            id == old(self).spec_next_request_id(),
            final(self).spec_next_request_id() == id + 1,
            final(self).spec_pending() == spec_register(old(self).spec_pending(), id),
            final(self).spec_state() == old(self).spec_state(),
            final(self).spec_channel() == old(self).spec_channel(),
            spec_tracks(final(self).spec_pending(), id),
            spec_claimed(final(self).spec_pending(), id) is None,
    {
        let id = self.next_request_id;
        self.next_request_id = self.next_request_id + 1;
        proof {
            lemma_index_of_props(self.spec_pending(), id);
            if spec_index_of(self.spec_pending(), id) >= 0 {
                let idx = spec_index_of(self.spec_pending(), id);
                assert(self.spec_pending()[idx].request_id == id);
            }
        }
        self.pending.register(id);
        proof {
            let s = self.spec_pending();
            crate::correlation::lemma_index_of_first(s, id, s.len() - 1);
        }
        id
    }

    /// Removes the pending request for `id` without a result: the timeout
    /// path. Idempotent; a resolution arriving later finds nothing to wake.
    pub fn cancel_request(&mut self, id: i32)
        requires
            old(self).wf(),
        ensures
            final(self).wf(),
            final(self).spec_pending() == spec_remove_id(old(self).spec_pending(), id),
            final(self).spec_state() == old(self).spec_state(),
            final(self).spec_channel() == old(self).spec_channel(),
            final(self).spec_next_request_id() == old(self).spec_next_request_id(),
    {
        self.pending.cancel(id);
        proof {
            lemma_index_of_props(old(self).spec_pending(), id);
            let idx = spec_index_of(old(self).spec_pending(), id);
            if idx >= 0 {
                assert forall|i: int|
                    0 <= i < self.spec_pending().len() implies #[trigger] self.spec_pending()[i].request_id
                    < self.spec_next_request_id() by {
                    let si = if i < idx {
                        i
                    } else {
                        i + 1
                    };
                    assert(self.spec_pending()[i] == old(self).spec_pending()[si]);
                }
            }
        }
    }

    /// Claims the result of the request `id` after its waiter was woken:
    /// removes the entry and hands out its slot. An empty slot — a spurious
    /// wake — yields the empty indicator.
    pub fn claim_response(&mut self, id: i32) -> (r: Option<Event<P>>)
        requires
            old(self).wf(),
        ensures
            final(self).wf(),
            r == spec_claimed(old(self).spec_pending(), id),
            final(self).spec_pending() == spec_remove_id(old(self).spec_pending(), id),
            final(self).spec_state() == old(self).spec_state(),
            final(self).spec_channel() == old(self).spec_channel(),
            final(self).spec_next_request_id() == old(self).spec_next_request_id(),
    {
        let r = self.pending.claim(id);
        proof {
            lemma_index_of_props(old(self).spec_pending(), id);
            let idx = spec_index_of(old(self).spec_pending(), id);
            if idx >= 0 {
                assert forall|i: int|
                    0 <= i < self.spec_pending().len() implies #[trigger] self.spec_pending()[i].request_id
                    < self.spec_next_request_id() by {
                    let si = if i < idx {
                        i
                    } else {
                        i + 1
                    };
                    assert(self.spec_pending()[i] == old(self).spec_pending()[si]);
                }
            }
        }
        r
    }

    /// A snapshot of the session state.
    pub fn get_state(&self) -> (r: AsyncTraderState)
        ensures
            r == self.spec_state(),
    {
        self.state
    }

    /// Removes and returns the oldest streamed event, or the empty indicator
    /// on an empty queue, without blocking.
    pub fn try_recv_event(&mut self) -> (r: Option<Event<P>>)
        ensures
            final(self).wf() == old(self).wf(),
            old(self).spec_channel().len() == 0 ==> r is None && final(self).spec_channel() == old(
                self,
            ).spec_channel(),
            old(self).spec_channel().len() > 0 ==> r == Some(old(self).spec_channel().first())
                && final(self).spec_channel() == old(self).spec_channel().drop_first(),
            final(self).spec_state() == old(self).spec_state(),
            final(self).spec_pending() == old(self).spec_pending(),
            final(self).spec_next_request_id() == old(self).spec_next_request_id(),
    {
        self.channel.try_recv()
    }
}

/// The market-data bridge: session state and streaming channel; market-data
/// operations are keyed off state-change notifications, not per-request
/// correlation, because the connect callback carries no request id.
pub struct MdBridge<P> {
    state: AsyncMdState,
    channel: EventChannel<P>,
}

impl<P: Copy> MdBridge<P> {
    /// The session state, for specification purposes.
    pub closed spec fn spec_state(&self) -> AsyncMdState {
        self.state
    }

    /// The streaming channel's queue, for specification purposes.
    pub closed spec fn spec_channel(&self) -> Seq<Event<P>> {
        self.channel@
    }

    /// A fresh bridge.
    pub fn new() -> (r: Self)
        ensures
            r.spec_state() == AsyncMdState::spec_initial(),
            r.spec_channel() == Seq::<Event<P>>::empty(),
    {
        MdBridge { state: AsyncMdState::default(), channel: EventChannel::new() }
    }

    /// The event sink: updates the session state, then delivers the event to
    /// the streaming channel.
    pub fn handle_event(&mut self, e: Event<P>)
        ensures
            final(self).spec_state() == spec_apply_md_event(old(self).spec_state(), e),
            final(self).spec_channel() == old(self).spec_channel().push(e),
    {
        self.state.apply_event(&e);
        self.channel.publish(e);
    }

    /// A snapshot of the session state.
    pub fn get_state(&self) -> (r: AsyncMdState)
        ensures
            r == self.spec_state(),
    {
        self.state
    }

    /// Removes and returns the oldest streamed event, or the empty indicator
    /// on an empty queue, without blocking.
    pub fn try_recv_event(&mut self) -> (r: Option<Event<P>>)
        ensures
            old(self).spec_channel().len() == 0 ==> r is None && final(self).spec_channel() == old(
                self,
            ).spec_channel(),
            old(self).spec_channel().len() > 0 ==> r == Some(old(self).spec_channel().first())
                && final(self).spec_channel() == old(self).spec_channel().drop_first(),
            final(self).spec_state() == old(self).spec_state(),
    {
        self.channel.try_recv()
    }
}

/// No id collision is possible: in a well-formed bridge the id the next
/// allocation will hand out is tracked by no in-flight request, so two
/// submissions always receive distinct request ids.
pub proof fn lemma_fresh_id_never_tracked<P>(b: TraderBridge<P>) where P: Copy
    requires
        b.wf(),
    ensures
        !spec_tracks(b.spec_pending(), b.spec_next_request_id()),
{
    lemma_index_of_props(b.spec_pending(), b.spec_next_request_id());
    let idx = spec_index_of(b.spec_pending(), b.spec_next_request_id());
    if idx >= 0 {
        assert(b.spec_pending()[idx].request_id == b.spec_next_request_id());
    }
}

/// The outcome of waiting for the connection: success exactly when the
/// notification came in time and the state shows a live connection; a
/// timeout is reported as a timeout error, a wake without a connection as an
/// initialization error.
pub fn wait_connected_outcome(connected: bool, timed_out: bool) -> (r: CtpResult<()>)
    ensures
        r is Ok <==> (!timed_out && connected),
        timed_out ==> (r matches Err(e) && e is TimeoutError),
        !timed_out && !connected ==> (r matches Err(e) && e is InitializationError),
{
    if timed_out {
        Err(CtpError::TimeoutError("timed out waiting for connection".to_string()))
    } else if connected {
        Ok(())
    } else {
        Err(CtpError::InitializationError("connection not established".to_string()))
    }
}

/// The outcome of an authentication call: the cached authentication payload
/// if the wake came in time and a successful terminal frame committed one; a
/// timeout error on expiry; an initialization error on a wake without a
/// committed payload.
pub fn authenticate_outcome(state: &AsyncTraderState, timed_out: bool) -> (r: CtpResult<
    RspAuthenticateField,
>)
    ensures
        timed_out ==> (r matches Err(e) && e is TimeoutError),
        !timed_out ==> (match state.auth_info {
            Some(info) => r == Ok::<RspAuthenticateField, CtpError>(info),
            None => (r matches Err(e) && e is InitializationError),
        }),
{
    if timed_out {
        Err(CtpError::TimeoutError("timed out waiting for authentication".to_string()))
    } else {
        match &state.auth_info {
            Some(info) => Ok(*info),
            None => Err(CtpError::InitializationError("authentication failed".to_string())),
        }
    }
}

/// The outcome of a login call, from the trader session state.
pub fn login_outcome(state: &AsyncTraderState, timed_out: bool) -> (r: CtpResult<
    RspUserLoginField,
>)
    ensures
        timed_out ==> (r matches Err(e) && e is TimeoutError),
        !timed_out ==> (match state.login_info {
            Some(info) => r == Ok::<RspUserLoginField, CtpError>(info),
            None => (r matches Err(e) && e is InitializationError),
        }),
{
    if timed_out {
        Err(CtpError::TimeoutError("timed out waiting for login".to_string()))
    } else {
        match &state.login_info {
            Some(info) => Ok(*info),
            None => Err(CtpError::InitializationError("login failed".to_string())),
        }
    }
}

/// The outcome of a login call, from the market-data session state.
pub fn md_login_outcome(state: &AsyncMdState, timed_out: bool) -> (r: CtpResult<RspUserLoginField>)
    ensures
        timed_out ==> (r matches Err(e) && e is TimeoutError),
        !timed_out ==> (match state.login_info {
            Some(info) => r == Ok::<RspUserLoginField, CtpError>(info),
            None => (r matches Err(e) && e is InitializationError),
        }),
{
    if timed_out {
        Err(CtpError::TimeoutError("timed out waiting for login".to_string()))
    } else {
        match &state.login_info {
            Some(info) => Ok(*info),
            None => Err(CtpError::InitializationError("login failed".to_string())),
        }
    }
}

/// The outcome of a single-shot request once its waiter woke: the resolved
/// event, or an initialization error if the slot was empty (a spurious
/// wake).
pub fn response_outcome<P: Copy>(claimed: Option<Event<P>>) -> (r: CtpResult<Event<P>>)
    ensures
        match claimed {
            Some(e) => r == Ok::<Event<P>, CtpError>(e),
            None => (r matches Err(err) && err is InitializationError),
        },
{
    match claimed {
        Some(e) => Ok(e),
        None => Err(CtpError::InitializationError("response slot was empty".to_string())),
    }
}

/// One step of waiting for a single-shot response: on expiry, deregisters
/// the request (so a late resolution finds nothing) and reports a timeout;
/// on a wake, claims and returns the resolved event.
pub fn complete_request<P: Copy>(bridge: &mut TraderBridge<P>, id: i32, timed_out: bool) -> (r:
    CtpResult<Event<P>>)
    requires
        old(bridge).wf(),
    ensures
        final(bridge).wf(),
        final(bridge).spec_pending() == spec_remove_id(old(bridge).spec_pending(), id),
        final(bridge).spec_state() == old(bridge).spec_state(),
        final(bridge).spec_channel() == old(bridge).spec_channel(),
        timed_out ==> (r matches Err(e) && e is TimeoutError),
        !timed_out ==> (match spec_claimed(old(bridge).spec_pending(), id) {
            Some(e) => r == Ok::<Event<P>, CtpError>(e),
            None => (r matches Err(e) && e is InitializationError),
        }),
{
    if timed_out {
        bridge.cancel_request(id);
        Err(CtpError::TimeoutError("timed out waiting for response".to_string()))
    } else {
        let claimed = bridge.claim_response(id);
        response_outcome(claimed)
    }
}

} // verus!
