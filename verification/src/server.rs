//! The service core: the shared context, the callback and clock interfaces,
//! and the access flow that turns a token into an accept/deny decision,
//! records the attempt, and triggers the post-success side effect.

use vstd::prelude::*;

use crate::history::{History, HistoryEntry, HistoryEntryView};
use crate::identity::{AccessResponse, AccessResponseView, IdentityStore, Outcome, VerifierError};

verus! {

/// The time source broke down; the request is aborted rather than recorded
/// with a defaulted time.
#[derive(Clone, Copy, PartialEq, Eq, Structural, Debug)]
pub struct ClockError;

/// The post-success side effect failed. The decision and its history entry
/// stand regardless.
#[derive(Clone, Copy, PartialEq, Eq, Structural, Debug)]
pub struct CallbackError;

/// How an access request that reached a decision completed: `Granted` for a
/// `Success` outcome, `Forbidden` for a `Failure` outcome. Both are normal
/// completions of the request, distinct from the errors of `AccessError`.
#[derive(Clone, Copy, PartialEq, Eq, Structural, Debug)]
pub enum AccessStatus {
    Granted,
    Forbidden,
}

/// Why an access request failed without a decision being rendered final:
/// the verification mechanism broke, the time source broke, the audit log
/// could not record the decision, or the post-success side effect failed
/// after the decision was recorded.
#[derive(Clone, Copy, PartialEq, Eq, Structural, Debug)]
pub enum AccessError {
    Verifier(VerifierError),
    Clock(ClockError),
    Store(crate::history::StoreError),
    Gateway(CallbackError),
}

/// Interface of the wall-clock source that stamps history entries:
/// epoch seconds, read at the instant the attempt is recorded.
/// `spec_now` is the reading the clock produces in its current state.
pub trait Clock {
    /// The reading this clock produces in its current state.
    spec fn spec_now(&self) -> Result<u64, ClockError>;

    /// Read the current time as unsigned epoch seconds.
    fn now(&mut self) -> (r: Result<u64, ClockError>)
        ensures
            r == old(self).spec_now(),
    ;
}

/// A clock that answers every read with the same configured instant. The
/// process's edge samples the real wall clock and hands the sample in
/// through one of these.
pub struct FixedClock {
    pub time: u64,
}

impl Clock for FixedClock {
    open spec fn spec_now(&self) -> Result<u64, ClockError> {
        Ok(self.time)
    }

    fn now(&mut self) -> (r: Result<u64, ClockError>) {
        Ok(self.time)
    }
}

/// A clock whose source is broken: every read reports `ClockError`.
pub struct FailingClock;

impl Clock for FailingClock {
    open spec fn spec_now(&self) -> Result<u64, ClockError> {
        Err(ClockError)
    }

    fn now(&mut self) -> (r: Result<u64, ClockError>) {
        Err(ClockError)
    }
}

/// Interface of the downstream side effect triggered exactly when access is
/// granted: a zero-argument, no-result trigger, invoked at most once per
/// successful access. `invocations` counts how often it has been triggered;
/// `spec_fails` says whether the next invocation reports failure.
pub trait Callback {
    /// How many times this callback has been invoked.
    spec fn invocations(&self) -> nat;

    /// Whether the next invocation reports failure.
    spec fn spec_fails(&self) -> bool;

    /// Trigger the side effect once.
    fn call(&mut self) -> (r: Result<(), CallbackError>)
        requires
            old(self).invocations() < u64::MAX as nat,
        ensures
            final(self).invocations() == old(self).invocations() + 1,
            r is Err <==> old(self).spec_fails(),
    ;
}

/// A callback that only counts its invocations, reporting failure on each
/// of them when configured to.
pub struct CountingCallback {
    count: u64,
    fail: bool,
}

impl CountingCallback {
    /// A callback that has never been invoked and succeeds when invoked.
    pub fn new() -> (r: Self)
        ensures
            r.invocations() == 0,
            !r.spec_fails(),
    {
        CountingCallback { count: 0, fail: false }
    }

    /// A callback that has never been invoked and fails on every invocation.
    pub fn new_failing() -> (r: Self)
        ensures
            r.invocations() == 0,
            r.spec_fails(),
    {
        CountingCallback { count: 0, fail: true }
    }

    /// How many times this callback has been invoked.
    pub fn invocation_count(&self) -> (r: u64)
        ensures
            r as nat == self.invocations(),
    {
        self.count
    }
}

impl Callback for CountingCallback {
    closed spec fn invocations(&self) -> nat {
        self.count as nat
    }

    closed spec fn spec_fails(&self) -> bool {
        self.fail
    }

    fn call(&mut self) -> (r: Result<(), CallbackError>) {
        self.count = self.count + 1;
        if self.fail {
            Err(CallbackError)
        } else {
            Ok(())
        }
    }
}

/// The aggregate every concurrent request shares: the identity verifier and
/// the history store. The process holds exactly one, behind one
/// mutual-exclusion lock; exclusive access is what `&mut Context` stands
/// for, and the lock is released before the callback is invoked.
pub struct Context<V: IdentityStore, H: History> {
    pub identity_store: V,
    pub history: H,
}

/// Load-time configuration of the service: where to mount the two request
/// operations and which port to listen on. Not part of the runtime core.
pub struct ServerSettings {
    pub mount_point: String,
    pub port: u16,
}

/// Everything the access flow promises, as a relation between what the
/// collaborators would do (`decision`, `clock_reading`, `store_available`,
/// `callback_fails`), the log and the invocation count before and after
/// (`h0`/`h1`, `n0`/`n1`), and the flow's result `r`. Each arm both says
/// what its result means and when it is the result, so for any one state of
/// the collaborators exactly one arm can hold:
/// - `Ok`: a decision was reached, recorded, and (on `Success`) notified;
///   the status names the outcome.
/// - `Verifier`, `Clock`: the request aborted before anything was recorded
///   or notified.
/// - `Store`: a decision was reached but could not be recorded, so it is
///   not reported as final, and no notification happened.
/// - `Gateway`: a granted decision was recorded, but its notification
///   failed; the record stands.
pub open spec fn access_post(
    decision: Result<AccessResponseView, VerifierError>,
    clock_reading: Result<u64, ClockError>,
    store_available: bool,
    callback_fails: bool,
    token: Seq<char>,
    h0: Seq<HistoryEntryView>,
    h1: Seq<HistoryEntryView>,
    n0: nat,
    n1: nat,
    r: Result<(AccessStatus, AccessResponse), AccessError>,
) -> bool {
    match r {
        Ok((status, resp)) => {
            &&& decision matches Ok(d) && d == resp@
            &&& clock_reading matches Ok(t) && h1 == h0.push(
                HistoryEntryView { time: t, token: token, response: resp@ },
            )
            &&& store_available
            &&& (status is Granted <==> resp@.outcome is Success)
            &&& (status is Forbidden <==> resp@.outcome is Failure)
            &&& (resp@.outcome is Success ==> !callback_fails && n1 == n0 + 1)
            &&& (resp@.outcome is Failure ==> n1 == n0)
        },
        Err(AccessError::Verifier(e)) => {
            &&& decision matches Err(d) && d == e
            &&& h1 == h0
            &&& n1 == n0
        },
        Err(AccessError::Clock(e)) => {
            &&& decision is Ok
            &&& clock_reading matches Err(c) && c == e
            &&& h1 == h0
            &&& n1 == n0
        },
        Err(AccessError::Store(_)) => {
            &&& decision is Ok
            &&& clock_reading is Ok
            &&& !store_available
            &&& h1 == h0
            &&& n1 == n0
        },
        Err(AccessError::Gateway(_)) => {
            &&& decision matches Ok(d) && d.outcome is Success
            &&& clock_reading matches Ok(t) && decision matches Ok(d) && h1 == h0.push(
                HistoryEntryView { time: t, token: token, response: d },
            )
            &&& store_available
            &&& callback_fails
            &&& n1 == n0 + 1
        },
    }
}

/// When the verifier grants a token, the clock and the store serve, and the
/// callback succeeds, an access request completes with status `Granted`,
/// exactly one new history entry — carrying the submitted token and the
/// granting response — and exactly one callback invocation.
pub proof fn lemma_access_granted(
    decision: Result<AccessResponseView, VerifierError>,
    clock_reading: Result<u64, ClockError>,
    store_available: bool,
    callback_fails: bool,
    token: Seq<char>,
    h0: Seq<HistoryEntryView>,
    h1: Seq<HistoryEntryView>,
    n0: nat,
    n1: nat,
    r: Result<(AccessStatus, AccessResponse), AccessError>,
)
    requires
        access_post(
            decision,
            clock_reading,
            store_available,
            callback_fails,
            token,
            h0,
            h1,
            n0,
            n1,
            r,
        ),
        decision matches Ok(d) && d.outcome is Success,
        clock_reading is Ok,
        store_available,
        !callback_fails,
    ensures
        r is Ok,
        r matches Ok((status, resp)) ==> {
            &&& status is Granted
            &&& decision matches Ok(d) && d == resp@
            &&& clock_reading matches Ok(t) && h1 == h0.push(
                HistoryEntryView { time: t, token: token, response: resp@ },
            )
        },
        n1 == n0 + 1,
{
}

/// When the verifier denies a token, the clock and the store serve, an
/// access request completes with status `Forbidden`, exactly one new
/// history entry — carrying the denying response — and no callback
/// invocation.
pub proof fn lemma_access_forbidden(
    decision: Result<AccessResponseView, VerifierError>,
    clock_reading: Result<u64, ClockError>,
    store_available: bool,
    callback_fails: bool,
    token: Seq<char>,
    h0: Seq<HistoryEntryView>,
    h1: Seq<HistoryEntryView>,
    n0: nat,
    n1: nat,
    r: Result<(AccessStatus, AccessResponse), AccessError>,
)
    requires
        access_post(
            decision,
            clock_reading,
            store_available,
            callback_fails,
            token,
            h0,
            h1,
            n0,
            n1,
            r,
        ),
        decision matches Ok(d) && d.outcome is Failure,
        clock_reading is Ok,
        store_available,
    ensures
        r is Ok,
        r matches Ok((status, resp)) ==> {
            &&& status is Forbidden
            &&& decision matches Ok(d) && d == resp@
            &&& clock_reading matches Ok(t) && h1 == h0.push(
                HistoryEntryView { time: t, token: token, response: resp@ },
            )
        },
        n1 == n0,
{
}

/// When the store cannot record, no decision is reported to the caller as
/// final, nothing is added to the history, and the callback is never
/// invoked — whatever the verifier's outcome was.
pub proof fn lemma_store_outage(
    decision: Result<AccessResponseView, VerifierError>,
    clock_reading: Result<u64, ClockError>,
    callback_fails: bool,
    token: Seq<char>,
    h0: Seq<HistoryEntryView>,
    h1: Seq<HistoryEntryView>,
    n0: nat,
    n1: nat,
    r: Result<(AccessStatus, AccessResponse), AccessError>,
)
    requires
        access_post(decision, clock_reading, false, callback_fails, token, h0, h1, n0, n1, r),
    ensures
        r is Err,
        h1 == h0,
        n1 == n0,
{
}

/// When the callback fails after a granted verification, the request
/// surfaces a gateway error, but the history entry of the attempt is
/// already recorded and stays: a subsequent unfiltered history read
/// returns all of `h1`, whose last entry is that attempt.
pub proof fn lemma_callback_failure_keeps_entry(
    decision: Result<AccessResponseView, VerifierError>,
    clock_reading: Result<u64, ClockError>,
    token: Seq<char>,
    h0: Seq<HistoryEntryView>,
    h1: Seq<HistoryEntryView>,
    n0: nat,
    n1: nat,
    r: Result<(AccessStatus, AccessResponse), AccessError>,
)
    requires
        access_post(decision, clock_reading, true, true, token, h0, h1, n0, n1, r),
        decision matches Ok(d) && d.outcome is Success,
        clock_reading is Ok,
    ensures
        r matches Err(e) && e matches AccessError::Gateway(_),
        clock_reading matches Ok(t) && decision matches Ok(d) && h1 == h0.push(
            HistoryEntryView { time: t, token: token, response: d },
        ),
        crate::history::query_result(h1, crate::history::HistoryQueryView::unfiltered()) == h1,
        n1 == n0 + 1,
{
    crate::history::lemma_query_unfiltered(h1);
}

/// The write path of an access request, run while holding the context:
/// delegate verification, read the clock, and append the attempt to the
/// history, in that strict order. A verifier or clock failure aborts the
/// request before anything is recorded; a failed append withholds the
/// decision from the caller, because a decision is only final once it is
/// durably recorded. The callback is none of this function's business: it
/// must run after the context is released.
pub fn verify_and_record<V: IdentityStore, H: History, K: Clock>(
    context: &mut Context<V, H>,
    clock: &mut K,
    token: String,
) -> (r: Result<AccessResponse, AccessError>)
    ensures
        final(context).history.available() == old(context).history.available(),
        match r {
            Ok(resp) => {
                &&& old(context).identity_store.spec_access(token@) matches Ok(d) && d == resp@
                &&& old(clock).spec_now() matches Ok(t) && final(context).history.entries() == old(
                    context,
                ).history.entries().push(
                    HistoryEntryView { time: t, token: token@, response: resp@ },
                )
                &&& old(context).history.available()
            },
            Err(AccessError::Verifier(e)) => {
                &&& old(context).identity_store.spec_access(token@) matches Err(d) && d == e
                &&& final(context).history.entries() == old(context).history.entries()
            },
            Err(AccessError::Clock(e)) => {
                &&& old(context).identity_store.spec_access(token@) is Ok
                &&& old(clock).spec_now() matches Err(c) && c == e
                &&& final(context).history.entries() == old(context).history.entries()
            },
            Err(AccessError::Store(_)) => {
                &&& old(context).identity_store.spec_access(token@) is Ok
                &&& old(clock).spec_now() is Ok
                &&& !old(context).history.available()
                &&& final(context).history.entries() == old(context).history.entries()
            },
            Err(AccessError::Gateway(_)) => false,
        },
{
    let response = match context.identity_store.access(token.as_str()) {
        Ok(resp) => resp,
        Err(e) => {
            return Err(AccessError::Verifier(e));
        },
    };
    let time = match clock.now() {
        Ok(t) => t,
        Err(e) => {
            return Err(AccessError::Clock(e));
        },
    };
    let entry = HistoryEntry { time, token, response: response.clone() };
    match context.history.insert(entry) {
        Ok(_) => Ok(response),
        Err(e) => Err(AccessError::Store(e)),
    }
}

/// The tail of an access request, run after the context has been released:
/// given the recorded decision and the result of the callback invocation —
/// present exactly when the outcome was `Success`, because the callback is
/// invoked if and only if access was granted — name the request's status. A
/// callback failure surfaces as a gateway error, but the decision stays
/// recorded.
pub fn complete_access(
    response: AccessResponse,
    callback_result: Option<Result<(), CallbackError>>,
) -> (r: Result<(AccessStatus, AccessResponse), AccessError>)
    requires
        callback_result is Some <==> response.outcome is Success,
    ensures
        match r {
            Ok((status, resp)) => {
                &&& resp@ == response@
                &&& (status is Granted <==> response.outcome is Success)
                &&& (status is Forbidden <==> response.outcome is Failure)
                &&& (response.outcome is Success ==> (callback_result matches Some(c) && c is Ok))
            },
            Err(e) => {
                &&& e matches AccessError::Gateway(_)
                &&& response.outcome is Success
                &&& callback_result matches Some(c) && c is Err
            },
        },
{
    match callback_result {
        Some(done) => match done {
            Ok(_) => Ok((AccessStatus::Granted, response)),
            Err(e) => Err(AccessError::Gateway(e)),
        },
        None => Ok((AccessStatus::Forbidden, response)),
    }
}

/// One whole access request, run sequentially: verify, stamp, record, then
/// — if and only if the outcome was `Success` — invoke the callback, and
/// name the status. Its promise is `access_post` over the collaborators'
/// state at the call. A concurrent service runs the same steps through
/// `verify_and_record` and `complete_access`, invoking its callback between
/// the two, so that the context is not held while the callback runs; this
/// function keeps all four collaborators in hand and is the sequential
/// statement of that protocol.
pub fn access<V: IdentityStore, H: History, K: Clock, C: Callback>(
    context: &mut Context<V, H>,
    clock: &mut K,
    callback: &mut C,
    token: String,
) -> (r: Result<(AccessStatus, AccessResponse), AccessError>)
    requires
        old(callback).invocations() < u64::MAX as nat,
    ensures
        final(context).history.available() == old(context).history.available(),
        access_post(
            old(context).identity_store.spec_access(token@),
            old(clock).spec_now(),
            old(context).history.available(),
            old(callback).spec_fails(),
            token@,
            old(context).history.entries(),
            final(context).history.entries(),
            old(callback).invocations(),
            final(callback).invocations(),
            r,
        ),
{
    let response = match verify_and_record(context, clock, token) {
        Ok(resp) => resp,
        Err(e) => {
            return Err(e);
        },
    };
    let callback_result = match response.outcome {
        Outcome::Success => Some(callback.call()),
        Outcome::Failure => None,
    };
    complete_access(response, callback_result)
}

} // verus!
