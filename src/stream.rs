//! The holder that pairs a source with its handler, and the callback logic that
//! runs the handler for one request of Ion C's user stream.

use vstd::prelude::*;

use crate::error::{
    code_of, error_code_of, iERR, ion_error_code_IERR_INVALID_STATE, ion_error_code_IERR_OK,
    IonCError, IonCResult,
};

verus! {

/// Pairs a mutable borrow of a caller's source with the handler that serves the
/// stream's requests from it.
pub struct IonCStreamHolder<'a, T, S, F: Fn(&mut T, &mut S) -> IonCResult<()>> {
    source: &'a mut T,
    handler: F,
    stream: core::marker::PhantomData<S>,
}

impl<'a, T, S, F> IonCStreamHolder<'a, T, S, F> where F: Fn(&mut T, &mut S) -> IonCResult<()> {
    /// The borrow of the caller's source that the holder carries.
    pub closed spec fn source(&self) -> &'a mut T {
        self.source
    }

    /// The handler that the holder carries.
    pub closed spec fn handler(&self) -> F {
        self.handler
    }

    /// Once the holder is done with, the source holds what the last run of the
    /// handler left in it.
    pub proof fn lemma_released(self)
        requires
            has_resolved(self),
        ensures
            *self.source() == *final(self.source()),
    {
    }

    /// Wraps `source` and `handler` into one value that can stand behind Ion C's
    /// state slot.
    pub fn new(source: &'a mut T, handler: F) -> (r: Self)
        ensures
            *r.source() == *old(source),
            *final(r.source()) == *final(source),
            r.handler() == handler,
    {
        IonCStreamHolder { source, handler, stream: core::marker::PhantomData }
    }

    /// Serves one request: runs the handler on the held source and on `stream`,
    /// and reports its outcome as a status code.
    pub fn invoke(&mut self, stream: &mut S) -> (code: iERR)
        requires
            forall|s: &mut T, d: &mut S| call_requires(old(self).handler(), (s, d)),
        ensures
            final(self).handler() == old(self).handler(),
            *final(final(self).source()) == *final(old(self).source()),
            exists|r: IonCResult<()>, s: &mut T, d: &mut S|
                #[trigger] call_ensures(old(self).handler(), (s, d), r)
                    && *s == *old(self).source() && *final(s) == *final(self).source()
                    && *d == *old(stream) && *final(d) == *final(stream)
                    && code == code_of(r),
    {
        let r = (self.handler)(self.source, stream);
        error_code_of(&r)
    }
}

/// The callback logic for one request of Ion C's user stream. `stream` is the
/// descriptor Ion C handed over and `holder` what its state slot leads to; where
/// either is missing, nothing runs and the invalid-state code is returned.
pub fn ionc_stream_handler<'a, T, S, F>(
    holder: Option<&mut IonCStreamHolder<'a, T, S, F>>,
    stream: Option<&mut S>,
) -> (code: iERR) where F: Fn(&mut T, &mut S) -> IonCResult<()>
    requires
        holder matches Some(h) ==> forall|s: &mut T, d: &mut S| call_requires(h.handler(), (s, d)),
    ensures
        match (holder, stream) {
            (Some(h), Some(d)) => {
                &&& final(h).handler() == h.handler()
                &&& *final(final(h).source()) == *final(h.source())
                &&& exists|r: IonCResult<()>, s: &mut T, e: &mut S|
                    #[trigger] call_ensures(h.handler(), (s, e), r)
                        && *s == *h.source() && *final(s) == *final(h).source()
                        && *e == *d && *final(e) == *final(d)
                        && code == code_of(r)
            },
            _ => {
                &&& code == ion_error_code_IERR_INVALID_STATE
                &&& holder matches Some(h) ==> *final(h) == *h
                &&& stream matches Some(d) ==> *final(d) == *d
            },
        },
{
    match (holder, stream) {
        (Some(h), Some(d)) => h.invoke(d),
        _ => ion_error_code_IERR_INVALID_STATE,
    }
}

/// Whether `handler` succeeds on every request it may be handed.
pub open spec fn never_fails<T, S, F: Fn(&mut T, &mut S) -> IonCResult<()>>(handler: F) -> bool {
    forall|s: &mut T, d: &mut S, r: IonCResult<()>|
        #[trigger] call_ensures(handler, (s, d), r) ==> r is Ok
}

/// A handler that never fails has every request it serves reported as success,
/// however many requests come in a row.
pub proof fn lemma_success_always_reported<T, S, F: Fn(&mut T, &mut S) -> IonCResult<()>>(
    handler: F,
    runs: Seq<(&mut T, &mut S, IonCResult<()>)>,
)
    requires
        never_fails(handler),
        forall|i: int| 0 <= i < runs.len() ==> call_ensures(handler, (runs[i].0, runs[i].1), #[trigger] runs[i].2),
    ensures
        forall|i: int| 0 <= i < runs.len() ==> code_of(#[trigger] runs[i].2) == ion_error_code_IERR_OK,
{
    assert forall|i: int| 0 <= i < runs.len() implies code_of(#[trigger] runs[i].2) == ion_error_code_IERR_OK by {
        assert(call_ensures(handler, (runs[i].0, runs[i].1), runs[i].2));
    }
}

/// A handler that fails with code `c` has that code, unchanged, reported for
/// every request it serves.
pub proof fn lemma_failure_code_passed_through<T, S, F: Fn(&mut T, &mut S) -> IonCResult<()>>(
    handler: F,
    c: iERR,
    runs: Seq<(&mut T, &mut S, IonCResult<()>)>,
)
    requires
        forall|s: &mut T, d: &mut S, r: IonCResult<()>|
            #[trigger] call_ensures(handler, (s, d), r) ==> r == Err::<(), IonCError>(IonCError { code: c }),
        forall|i: int| 0 <= i < runs.len() ==> call_ensures(handler, (runs[i].0, runs[i].1), #[trigger] runs[i].2),
    ensures
        forall|i: int| 0 <= i < runs.len() ==> code_of(#[trigger] runs[i].2) == c,
{
    assert forall|i: int| 0 <= i < runs.len() implies code_of(#[trigger] runs[i].2) == c by {
        assert(call_ensures(handler, (runs[i].0, runs[i].1), runs[i].2));
    }
}

/// Requests served by two holders, interleaved in any order, keep to their own
/// holder: in a stretch of requests all served by one holder, the other holder's
/// source keeps its value, so each handler finds its source as its own last run
/// left it.
///
/// `to_first[k]` tells which holder served request `k`; `first[k]` and
/// `second[k]` are the two sources' values before it, `first[k + 1]` and
/// `second[k + 1]` after it. Each request runs only its own holder's handler,
/// on that holder's source and the stream it was handed, as `invoke` states.
pub proof fn lemma_holders_independent<T, U, S, R, F, G>(
    f: F,
    g: G,
    to_first: Seq<bool>,
    first: Seq<T>,
    second: Seq<U>,
)
    where
        F: Fn(&mut T, &mut S) -> IonCResult<()>,
        G: Fn(&mut U, &mut R) -> IonCResult<()>,
    requires
        first.len() == to_first.len() + 1,
        second.len() == to_first.len() + 1,
        forall|k: int|
            0 <= k < to_first.len() && #[trigger] to_first[k] ==> second[k + 1] == second[k]
                && exists|r: IonCResult<()>, s: &mut T, d: &mut S|
                #[trigger] call_ensures(f, (s, d), r) && *s == first[k] && *final(s) == first[k + 1],
        forall|k: int|
            0 <= k < to_first.len() && !#[trigger] to_first[k] ==> first[k + 1] == first[k]
                && exists|r: IonCResult<()>, s: &mut U, d: &mut R|
                #[trigger] call_ensures(g, (s, d), r) && *s == second[k] && *final(s) == second[k + 1],
    ensures
        forall|i: int, j: int|
            0 <= i <= j <= to_first.len() && (forall|k: int| i <= k < j ==> !#[trigger] to_first[k])
                ==> #[trigger] first[j] == #[trigger] first[i],
        forall|i: int, j: int|
            0 <= i <= j <= to_first.len() && (forall|k: int| i <= k < j ==> #[trigger] to_first[k])
                ==> #[trigger] second[j] == #[trigger] second[i],
{
    assert forall|i: int, j: int|
        0 <= i <= j <= to_first.len() && (forall|k: int| i <= k < j ==> !#[trigger] to_first[k])
            implies #[trigger] first[j] == #[trigger] first[i] by {
        lemma_kept_over(first, to_first, false, i, j);
    }
    assert forall|i: int, j: int|
        0 <= i <= j <= to_first.len() && (forall|k: int| i <= k < j ==> #[trigger] to_first[k])
            implies #[trigger] second[j] == #[trigger] second[i] by {
        lemma_kept_over(second, to_first, true, i, j);
    }
}

/// A value that each step marked `mark` keeps is the same at both ends of a
/// stretch of such steps.
proof fn lemma_kept_over<V>(vals: Seq<V>, marks: Seq<bool>, mark: bool, i: int, j: int)
    requires
        vals.len() == marks.len() + 1,
        forall|k: int| 0 <= k < marks.len() && #[trigger] marks[k] == mark ==> vals[k + 1] == vals[k],
        0 <= i <= j <= marks.len(),
        forall|k: int| i <= k < j ==> #[trigger] marks[k] == mark,
    ensures
        vals[j] == vals[i],
    decreases j - i,
{
    if i < j {
        assert(marks[j - 1] == mark);
        lemma_kept_over(vals, marks, mark, i, j - 1);
    }
}

} // verus!
