//! Multi-part query accumulation.
//!
//! A paginated query delivers any number of partial frames and one terminal
//! frame (`is_last`) under one request id, interleaved with unrelated
//! events. The accumulator absorbs events one at a time, keeps every record
//! of every matching successful frame in arrival order, stops at the
//! terminal frame, and surfaces the vendor's business error if a matching
//! frame carries one. The timeout budget is the caller's: an accumulator
//! that never completes is turned into a timeout error.

use vstd::prelude::*;

use crate::encoding::{gb18030_decoding, spec_trim_nulls};
use crate::error::{CtpError, CtpResult};
use crate::event::{spec_rsp_success, Event};
use crate::types::RspInfoField;

verus! {

/// The accumulator's abstract state: the records gathered so far, whether
/// the terminal frame arrived, and the first business failure, if any.
pub struct QueryState<P> {
    /// Records gathered so far, in arrival order.
    pub records: Seq<P>,
    /// Whether the terminal frame arrived.
    pub finished: bool,
    /// The first failing status envelope, if any.
    pub error: Option<RspInfoField>,
}

/// Whether `e` is a query frame for request `id` with a successful (or
/// absent) status envelope.
pub open spec fn spec_matching_success_frame<P>(e: Event<P>, id: i32) -> bool {
    match e {
        Event::QueryResponse { rsp_info, request_id, .. } => request_id == id && spec_rsp_success(
            rsp_info,
        ),
        _ => false,
    }
}

/// Whether `e` is a query frame for request `id` with a failing status
/// envelope.
pub open spec fn spec_matching_failure_frame<P>(e: Event<P>, id: i32) -> bool {
    match e {
        Event::QueryResponse { rsp_info, request_id, .. } => request_id == id && !spec_rsp_success(
            rsp_info,
        ),
        _ => false,
    }
}

/// The payload of a query frame, if it is one and carries one.
pub open spec fn spec_frame_payload<P>(e: Event<P>) -> Option<P> {
    match e {
        Event::QueryResponse { payload, .. } => payload,
        _ => Option::None,
    }
}

/// Whether a query frame is terminal.
pub open spec fn spec_frame_is_last<P>(e: Event<P>) -> bool {
    match e {
        Event::QueryResponse { is_last, .. } => is_last,
        _ => false,
    }
}

/// The status envelope of a query frame, if it is one and carries one.
pub open spec fn spec_frame_rsp_info<P>(e: Event<P>) -> Option<RspInfoField> {
    match e {
        Event::QueryResponse { rsp_info, .. } => rsp_info,
        _ => Option::None,
    }
}

/// One absorption step. A complete accumulator ignores everything; an event
/// that is no query frame for `id` changes nothing; a failing frame records
/// the failure; a successful frame contributes its record, if it carries
/// one, and the terminal flag.
pub open spec fn spec_absorb<P>(st: QueryState<P>, id: i32, e: Event<P>) -> QueryState<P> {
    if st.finished || st.error is Some {
        st
    } else if spec_matching_failure_frame(e, id) {
        QueryState { error: spec_frame_rsp_info(e), ..st }
    } else if spec_matching_success_frame(e, id) {
        let with_record = match spec_frame_payload(e) {
            Option::Some(p) => st.records.push(p),
            Option::None => st.records,
        };
        QueryState { records: with_record, finished: spec_frame_is_last(e), ..st }
    } else {
        st
    }
}

/// The state after absorbing a whole sequence of events, first event first.
pub open spec fn spec_absorb_all<P>(st: QueryState<P>, id: i32, es: Seq<Event<P>>) -> QueryState<
    P,
>
    decreases es.len(),
{
    if es.len() == 0 {
        st
    } else {
        spec_absorb_all(spec_absorb(st, id, es.first()), id, es.drop_first())
    }
}

/// The records of a sequence of frames, in order: each frame contributes its
/// payload if it carries one.
pub open spec fn spec_frame_payloads<P>(es: Seq<Event<P>>) -> Seq<P>
    decreases es.len(),
{
    if es.len() == 0 {
        Seq::empty()
    } else {
        let rest = spec_frame_payloads(es.drop_first());
        match spec_frame_payload(es.first()) {
            Option::Some(p) => seq![p] + rest,
            Option::None => rest,
        }
    }
}

/// Accumulates the frames of one multi-part query.
pub struct QueryAccumulator<P> {
    request_id: i32,
    records: Vec<P>,
    finished: bool,
    error: Option<RspInfoField>,
}

impl<P: Copy> QueryAccumulator<P> {
    /// The request id being accumulated, for specification purposes.
    pub closed spec fn spec_request_id(&self) -> i32 {
        self.request_id
    }

    /// The abstract state, for specification purposes.
    pub closed spec fn spec_state(&self) -> QueryState<P> {
        QueryState { records: self.records@, finished: self.finished, error: self.error }
    }

    /// A fresh accumulator for the query with id `request_id`.
    pub fn new(request_id: i32) -> (r: Self)
        ensures
            r.spec_request_id() == request_id,
            r.spec_state() == (QueryState::<P> {
                records: Seq::empty(),
                finished: false,
                error: Option::None,
            }),
    {
        let r = QueryAccumulator { request_id, records: Vec::new(), finished: false, error: None };
        proof {
            assert(r.spec_state().records =~= Seq::<P>::empty());
            assert(r.spec_state() == (QueryState::<P> {
                records: Seq::empty(),
                finished: false,
                error: Option::None,
            }));
        }
        r
    }

    /// Absorbs one event; the contract is exactly `spec_absorb`.
    pub fn absorb(&mut self, e: &Event<P>)
        ensures
            final(self).spec_request_id() == old(self).spec_request_id(),
            final(self).spec_state() == spec_absorb(
                old(self).spec_state(),
                old(self).spec_request_id(),
                *e,
            ),
    {
        if self.finished || self.error.is_some() {
            return ;
        }
        match e {
            Event::QueryResponse { payload, rsp_info, request_id, is_last } => {
                if *request_id == self.request_id {
                    let success = crate::event::rsp_success(rsp_info);
                    if !success {
                        self.error = *rsp_info;
                    } else {
                        match payload {
                            Some(p) => {
                                self.records.push(*p);
                            },
                            None => {},
                        }
                        self.finished = *is_last;
                    }
                }
            },
            _ => {},
        }
    }

    /// Whether the accumulation is over: the terminal frame arrived or a
    /// matching frame failed.
    pub fn is_complete(&self) -> (r: bool)
        ensures
            r == (self.spec_state().finished || self.spec_state().error is Some),
    {
        self.finished || self.error.is_some()
    }

    /// Turns the accumulator into the query's outcome. A recorded business
    /// failure becomes a business error with the vendor's code and decoded
    /// message; a finished accumulation yields every record in arrival
    /// order; an unfinished one — the caller's budget expired — a timeout
    /// error.
    pub fn into_result(self) -> (r: CtpResult<Vec<P>>)
        ensures
            match self.spec_state().error {
                Some(rsp) => (r matches Err(e) && e matches CtpError::BusinessError(c, m) && c
                    == rsp.error_id && m@ == gb18030_decoding(spec_trim_nulls(rsp.error_msg@))),
                None => {
                    if self.spec_state().finished {
                        r matches Ok(v) && v@ == self.spec_state().records
                    } else {
                        (r matches Err(e) && e is TimeoutError)
                    }
                },
            },
    {
        match self.error {
            Some(rsp) => {
                let msg = match rsp.get_error_msg() {
                    Ok(m) => m,
                    Err(_) => String::new(),
                };
                Err(CtpError::BusinessError(rsp.error_id, msg))
            },
            None => {
                if self.finished {
                    Ok(self.records)
                } else {
                    Err(CtpError::TimeoutError("timed out waiting for query response".to_string()))
                }
            },
        }
    }
}

/// Absorbing a run of successful matching frames, none terminal before the
/// last one, gathers exactly their records in arrival order, records no
/// failure, and finishes exactly when some frame is terminal.
pub proof fn lemma_accumulates_every_record<P>(st: QueryState<P>, id: i32, es: Seq<Event<P>>)
    requires
        !st.finished,
        st.error is None,
        forall|i: int| 0 <= i < es.len() ==> spec_matching_success_frame(#[trigger] es[i], id),
        forall|i: int| 0 <= i < es.len() - 1 ==> !spec_frame_is_last(#[trigger] es[i]),
    ensures
        spec_absorb_all(st, id, es).records == st.records + spec_frame_payloads(es),
        spec_absorb_all(st, id, es).error is None,
        spec_absorb_all(st, id, es).finished == (es.len() > 0 && spec_frame_is_last(es.last())),
    decreases es.len(),
{
    if es.len() == 0 {
        assert(st.records + spec_frame_payloads(es) =~= st.records);
    } else {
        let st1 = spec_absorb(st, id, es.first());
        assert(!spec_matching_failure_frame(es.first(), id));
        if es.len() == 1 {
            assert(spec_absorb_all(st, id, es) == spec_absorb_all(st1, id, es.drop_first()));
            assert(spec_absorb_all(st1, id, es.drop_first()) == st1);
            assert(es.drop_first().len() == 0);
            assert(spec_frame_payloads(es.drop_first()) =~= Seq::<P>::empty());
            match spec_frame_payload(es.first()) {
                Option::Some(p) => {
                    assert(spec_frame_payloads(es) =~= seq![p]);
                    assert(st1.records =~= st.records + spec_frame_payloads(es));
                },
                Option::None => {
                    assert(spec_frame_payloads(es) =~= Seq::<P>::empty());
                    assert(st1.records =~= st.records + spec_frame_payloads(es));
                },
            }
            assert(es.last() == es.first());
        } else {
            assert(!spec_frame_is_last(es[0]));
            assert(!st1.finished);
            assert(forall|i: int|
                0 <= i < es.drop_first().len() ==> #[trigger] es.drop_first()[i] == es[i + 1]);
            lemma_accumulates_every_record(st1, id, es.drop_first());
            assert(es.drop_first().last() == es.last());
            match spec_frame_payload(es.first()) {
                Option::Some(p) => {
                    assert(st1.records + spec_frame_payloads(es.drop_first()) =~= st.records
                        + spec_frame_payloads(es));
                },
                Option::None => {
                    assert(st1.records + spec_frame_payloads(es.drop_first()) =~= st.records
                        + spec_frame_payloads(es));
                },
            }
        }
    }
}

/// Each of a run of frames carrying one record each contributes exactly one
/// record: the records are as many as the frames.
pub proof fn lemma_payload_count<P>(es: Seq<Event<P>>)
    requires
        forall|i: int| 0 <= i < es.len() ==> spec_frame_payload(#[trigger] es[i]) is Some,
    ensures
        spec_frame_payloads(es).len() == es.len(),
    decreases es.len(),
{
    if es.len() > 0 {
        assert(forall|i: int|
            0 <= i < es.drop_first().len() ==> #[trigger] es.drop_first()[i] == es[i + 1]);
        lemma_payload_count(es.drop_first());
    }
}

/// Given N partial frames, each bearing one record, then one terminal frame
/// bearing none, all frames of one request id and all successful, the
/// accumulation finishes with exactly the N records, in arrival order.
pub proof fn lemma_query_accumulates_exactly_partial_records<P>(
    id: i32,
    partials: Seq<Event<P>>,
    terminal: Event<P>,
)
    requires
        forall|i: int|
            0 <= i < partials.len() ==> spec_matching_success_frame(#[trigger] partials[i], id)
                && spec_frame_payload(#[trigger] partials[i]) is Some && !spec_frame_is_last(
                #[trigger] partials[i],
            ),
        spec_matching_success_frame(terminal, id),
        spec_frame_payload(terminal) is None,
        spec_frame_is_last(terminal),
    ensures
        ({
            let fin = spec_absorb_all(
                QueryState::<P> { records: Seq::empty(), finished: false, error: Option::None },
                id,
                partials.push(terminal),
            );
            fin.finished && fin.error is None && fin.records == spec_frame_payloads(partials)
                && fin.records.len() == partials.len()
        }),
{
    let st0 = QueryState::<P> { records: Seq::empty(), finished: false, error: Option::None };
    let es = partials.push(terminal);
    assert(forall|i: int| 0 <= i < partials.len() ==> #[trigger] es[i] == partials[i]);
    assert(es.last() == terminal);
    lemma_accumulates_every_record(st0, id, es);
    lemma_payload_count(partials);
    lemma_payloads_of_push_without_record(partials, terminal);
    assert(Seq::<P>::empty() + spec_frame_payloads(es) =~= spec_frame_payloads(es));
}

/// Appending a frame without a record leaves the records of a run of frames
/// unchanged.
proof fn lemma_payloads_of_push_without_record<P>(es: Seq<Event<P>>, e: Event<P>)
    requires
        spec_frame_payload(e) is None,
    ensures
        spec_frame_payloads(es.push(e)) == spec_frame_payloads(es),
    decreases es.len(),
{
    if es.len() == 0 {
        assert(es.push(e).drop_first() =~= Seq::<Event<P>>::empty());
        assert(es.push(e).first() == e);
        assert(spec_frame_payloads(Seq::<Event<P>>::empty()) =~= Seq::<P>::empty());
        assert(spec_frame_payloads(es.push(e)) =~= spec_frame_payloads(es));
    } else {
        assert(es.push(e).drop_first() =~= es.drop_first().push(e));
        lemma_payloads_of_push_without_record(es.drop_first(), e);
        assert(es.push(e).first() == es.first());
    }
}

} // verus!
