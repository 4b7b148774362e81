use vstd::prelude::*;
use crate::error::{KubeError, KubeResult};

verus! {

/// Readiness signal of the poll-style protocol: one poll either hands out
/// the final item, or reports that the computation is not yet ready. A
/// failure leaves through the surrounding `Result` instead.
pub enum Async<T> {
    Ready(T),
    NotReady,
}

/// Readiness signal of the suspension-style protocol: one resume step either
/// reports the whole outcome at once — item or error together — or that the
/// computation is still suspended.
pub enum Step<T> {
    Suspended,
    Complete(T),
}

/// Observable behaviour of a computation in either asynchronous model: how
/// many more times it reports "not ready" before it completes, and the
/// outcome it completes with. `outcome` is `None` once the computation has
/// been driven to completion and its result handed out.
#[verifier::ext_equal]
pub ghost struct PollModel<I, E> {
    pub pending: nat,
    pub outcome: Option<Result<I, E>>,
}

/// The same observable behaviour, seen through the suspension-style
/// protocol: `pending` counts the suspension points left before the result.
#[verifier::ext_equal]
pub ghost struct SuspendModel<I, E> {
    pub pending: nat,
    pub outcome: Option<Result<I, E>>,
}

/// The model of an already-resolved computation: no "not ready" reports, the
/// outcome handed out by the first poll.
pub open spec fn resolved_model<I, E>(outcome: Result<I, E>) -> PollModel<I, E> {
    PollModel { pending: 0, outcome: Some(outcome) }
}

/// How one poll changes a poll-style computation: it either consumes one
/// "not ready" report or hands the outcome out and leaves the computation
/// completed.
pub open spec fn poll_step<I, E>(m: PollModel<I, E>) -> PollModel<I, E> {
    if m.pending > 0 {
        PollModel { pending: (m.pending - 1) as nat, outcome: m.outcome }
    } else {
        PollModel { pending: 0, outcome: None }
    }
}

/// What one poll of a poll-style computation returns.
pub open spec fn poll_signal<I, E>(m: PollModel<I, E>) -> Result<Async<I>, E> {
    if m.pending > 0 {
        Ok(Async::NotReady)
    } else {
        match m.outcome {
            Some(Ok(v)) => Ok(Async::Ready(v)),
            Some(Err(e)) => Err(e),
            None => arbitrary(),
        }
    }
}

/// How one resume step changes a suspension-style computation.
pub open spec fn suspend_step<I, E>(m: SuspendModel<I, E>) -> SuspendModel<I, E> {
    if m.pending > 0 {
        SuspendModel { pending: (m.pending - 1) as nat, outcome: m.outcome }
    } else {
        SuspendModel { pending: 0, outcome: None }
    }
}

/// What one resume step of a suspension-style computation reports.
pub open spec fn suspend_signal<I, E>(m: SuspendModel<I, E>) -> Step<Result<I, E>> {
    if m.pending > 0 {
        Step::Suspended
    } else {
        match m.outcome {
            Some(o) => Step::Complete(o),
            None => arbitrary(),
        }
    }
}

/// A computation in the poll-style model: an external driver invokes `poll`
/// repeatedly; each call returns immediately, reporting "not ready" a fixed
/// number of times before the outcome is handed out. Errors leave through
/// the `Result` of `poll` itself, as the poll-style protocol has it.
pub struct PollFuture<I, E> {
    pending: u64,
    outcome: Option<Result<I, E>>,
}

impl<I, E> View for PollFuture<I, E> {
    type V = PollModel<I, E>;

    closed spec fn view(&self) -> PollModel<I, E> {
        PollModel { pending: self.pending as nat, outcome: self.outcome }
    }
}

impl<I, E> PollFuture<I, E> {
    /// True until the computation has been driven to completion. A
    /// computation is polled only while live: it is driven to completion
    /// exactly once and discarded afterwards.
    pub open spec fn live(&self) -> bool {
        self@.outcome is Some
    }

    /// A computation that reports "not ready" `pending` times and then
    /// completes with `outcome`.
    pub fn new(pending: u64, outcome: Result<I, E>) -> (r: PollFuture<I, E>)
        ensures
            r@ == (PollModel { pending: pending as nat, outcome: Some(outcome) }),
    {
        PollFuture { pending, outcome: Some(outcome) }
    }

    /// An already-resolved computation: no asynchronous work is pending, the
    /// first poll hands the outcome out.
    pub fn resolved(outcome: Result<I, E>) -> (r: PollFuture<I, E>)
        ensures
            r@ == resolved_model(outcome),
    {
        PollFuture::new(0, outcome)
    }

    /// One step of the poll-style protocol: never blocks, returns either the
    /// final outcome or the "not ready" signal, exactly as the model says.
    pub fn poll(&mut self) -> (r: Result<Async<I>, E>)
        requires
            old(self).live(),
        ensures
            final(self)@ == poll_step(old(self)@),
            r == poll_signal(old(self)@),
    {
        if self.pending > 0 {
            self.pending = self.pending - 1;
            Ok(Async::NotReady)
        } else {
            match self.outcome.take() {
                Some(Ok(v)) => Ok(Async::Ready(v)),
                Some(Err(e)) => Err(e),
                None => unreached(),
            }
        }
    }
}

/// A computation in the suspension-style model: sequential code resumes it
/// step by step; each suspension point reports `Suspended`, and the final
/// step reports the whole outcome at once.
pub struct SuspendFuture<I, E> {
    pending: u64,
    outcome: Option<Result<I, E>>,
}

impl<I, E> View for SuspendFuture<I, E> {
    type V = SuspendModel<I, E>;

    closed spec fn view(&self) -> SuspendModel<I, E> {
        SuspendModel { pending: self.pending as nat, outcome: self.outcome }
    }
}

impl<I, E> SuspendFuture<I, E> {
    /// True until the computation has been driven to completion.
    pub open spec fn live(&self) -> bool {
        self@.outcome is Some
    }

    /// A computation that suspends `pending` times and then completes with
    /// `outcome`.
    pub fn new(pending: u64, outcome: Result<I, E>) -> (r: SuspendFuture<I, E>)
        ensures
            r@ == (SuspendModel { pending: pending as nat, outcome: Some(outcome) }),
    {
        SuspendFuture { pending, outcome: Some(outcome) }
    }

    /// One resume step of the suspension-style protocol.
    pub fn resume(&mut self) -> (r: Step<Result<I, E>>)
        requires
            old(self).live(),
        ensures
            final(self)@ == suspend_step(old(self)@),
            r == suspend_signal(old(self)@),
    {
        if self.pending > 0 {
            self.pending = self.pending - 1;
            Step::Suspended
        } else {
            match self.outcome.take() {
                Some(o) => Step::Complete(o),
                None => unreached(),
            }
        }
    }
}

/// What `downgrade` does to the observable behaviour: nothing but a change
/// of protocol — timing and outcome carry over unchanged.
pub open spec fn downgrade_model<I, E>(m: SuspendModel<I, E>) -> PollModel<I, E> {
    PollModel { pending: m.pending, outcome: m.outcome }
}

/// What `upgrade` does to the observable behaviour.
pub open spec fn upgrade_model<I, E>(m: PollModel<I, E>) -> SuspendModel<I, E> {
    SuspendModel { pending: m.pending, outcome: m.outcome }
}

/// Converts a suspension-style computation to the poll-style model, so that
/// poll-style combinators can drive it. Each suspension point becomes
/// exactly one "not ready" report — no extra buffering, no eager evaluation
/// — and the error value is propagated unchanged, never re-wrapped.
pub fn downgrade<I, E>(f: SuspendFuture<I, E>) -> (r: PollFuture<I, E>)
    ensures
        r@ == downgrade_model(f@),
{
    PollFuture { pending: f.pending, outcome: f.outcome }
}

/// Converts a poll-style computation to the suspension-style model, so that
/// sequential code can await it. Every value of `PollFuture` is freely
/// movable, so no pinning precondition is needed. Each "not ready" report
/// becomes exactly one suspension point, and the error value is propagated
/// unchanged, never re-wrapped.
pub fn upgrade<I, E>(f: PollFuture<I, E>) -> (r: SuspendFuture<I, E>)
    ensures
        r@ == upgrade_model(f@),
{
    SuspendFuture { pending: f.pending, outcome: f.outcome }
}

/// Bridging in one direction and then the other is observationally the
/// identity: the computation that comes back reports "not ready" exactly as
/// often as the one that went in, resolves to the same value, and fails with
/// the very same error — bridging never swallows or re-wraps either.
pub proof fn lemma_bridge_round_trip<I, E>(p: PollModel<I, E>, s: SuspendModel<I, E>)
    ensures
        downgrade_model(upgrade_model(p)) == p,
        upgrade_model(downgrade_model(s)) == s,
{
    assert(downgrade_model(upgrade_model(p)) =~= p);
    assert(upgrade_model(downgrade_model(s)) =~= s);
}

/// An asynchronous value built from an already-known outcome is resolved
/// immediately: the very first poll hands the outcome out — no "not ready"
/// report ever precedes it — and the computation is completed by that poll.
pub proof fn lemma_resolved_ready_at_first_poll<I, E>(outcome: Result<I, E>)
    ensures
        poll_signal(resolved_model(outcome)) == (match outcome {
            Ok(v) => Ok::<Async<I>, E>(Async::Ready(v)),
            Err(e) => Err::<Async<I>, E>(e),
        }),
        poll_step(resolved_model(outcome)).outcome is None,
{
}

/// Asynchronous value used throughout the library. It is a wrapper type of
/// its own solely so that the library can add its own extensions: it owns
/// exactly one poll-style computation that yields a `T` or a `KubeError`,
/// and it forwards polling to that computation unchanged.
pub struct KubeFuture<T>(PollFuture<T, KubeError>);

impl<T> View for KubeFuture<T> {
    type V = PollModel<T, KubeError>;

    closed spec fn view(&self) -> PollModel<T, KubeError> {
        self.0@
    }
}

impl<T> KubeFuture<T> {
    /// True until the value has been driven to completion.
    pub open spec fn live(&self) -> bool {
        self@.outcome is Some
    }

    /// Wraps a poll-style computation with no transformation. The
    /// computation already fails with `KubeError`, never with a raw codec or
    /// I/O error: the signature enforces that at the conversion boundary.
    pub fn from_poll(f: PollFuture<T, KubeError>) -> (r: KubeFuture<T>)
        ensures
            r@ == f@,
    {
        KubeFuture(f)
    }

    /// Lifts an already-known result into an already-resolved asynchronous
    /// value, so that a synchronous fast path can satisfy an
    /// asynchronous-value-typed interface.
    pub fn from_result(r: KubeResult<T>) -> (f: KubeFuture<T>)
        ensures
            f@ == resolved_model(r),
    {
        KubeFuture(PollFuture::resolved(r))
    }

    /// Polling forwards the readiness query directly to the owned inner
    /// computation; this layer adds no buffering and no transformation.
    pub fn poll(&mut self) -> (r: Result<Async<T>, KubeError>)
        requires
            old(self).live(),
        ensures
            final(self)@ == poll_step(old(self)@),
            r == poll_signal(old(self)@),
    {
        self.0.poll()
    }
}

/// Allow poll-style computation values to be converted directly into our
/// future, with no transformation.
impl<T> From<PollFuture<T, KubeError>> for KubeFuture<T> {
    fn from(f: PollFuture<T, KubeError>) -> (r: KubeFuture<T>)
        ensures
            r@ == f@,
    {
        KubeFuture(f)
    }
}

impl<T> vstd::std_specs::convert::FromSpecImpl<PollFuture<T, KubeError>> for KubeFuture<T> {
    open spec fn obeys_from_spec() -> bool {
        true
    }

    closed spec fn from_spec(f: PollFuture<T, KubeError>) -> KubeFuture<T> {
        KubeFuture(f)
    }
}

/// Allow result values to be converted directly into our future: the future
/// comes back already resolved.
impl<T> From<KubeResult<T>> for KubeFuture<T> {
    fn from(r: KubeResult<T>) -> (f: KubeFuture<T>)
        ensures
            f@ == resolved_model(r),
    {
        KubeFuture(PollFuture { pending: 0, outcome: Some(r) })
    }
}

impl<T> vstd::std_specs::convert::FromSpecImpl<KubeResult<T>> for KubeFuture<T> {
    open spec fn obeys_from_spec() -> bool {
        true
    }

    closed spec fn from_spec(r: KubeResult<T>) -> KubeFuture<T> {
        KubeFuture(PollFuture { pending: 0, outcome: Some(r) })
    }
}

/// Implemented by structured error payloads: a decoded payload that stands
/// for a failure is converted into the library's closed taxonomy. Callers
/// implement this for their own payload types.
pub trait IntoKubeError: Sized {
    /// Converts the payload into the error it stands for.
    fn into_kube_error(self) -> KubeError;
}

/// Relies on `serde_json::from_slice`: decodes the buffer as a JSON value of
/// type `T`, or reports the codec's structured error. Which buffers decode,
/// and to what value, depends on `T`'s `Deserialize` impl, so nothing more
/// is assumed of the result here.
#[verifier::external_body]
fn decode_json<T: serde::de::DeserializeOwned>(bytes: &[u8]) -> Result<T, serde_json::Error> {
    serde_json::from_slice(bytes)
}

impl<T> KubeFuture<T> {
    /// Lifts the codec's own result into an already-resolved asynchronous
    /// value: a decoded object is resolved to exactly that object, and a
    /// codec failure is converted to the codec kind of the taxonomy — never
    /// handed on raw.
    pub fn from_codec_result(d: Result<T, serde_json::Error>) -> (r: KubeFuture<T>)
        ensures
            r@.pending == 0,
            d matches Ok(v) ==> r@.outcome == Some(Ok::<T, KubeError>(v)),
            d is Err ==> (r@.outcome matches Some(Err(e)) && e is Json),
    {
        match d {
            Ok(v) => KubeFuture::from_result(Ok(v)),
            Err(e) => KubeFuture::from_result(Err(KubeError::from_json_error(e))),
        }
    }
}

impl<T: serde::de::DeserializeOwned> KubeFuture<T> {
    /// Parse the given bytes as JSON and return an asynchronous value that
    /// resolves to the decoded object. Decoding is synchronous, but the
    /// result is still wrapped for interface uniformity: the value comes
    /// back already resolved, and its first poll hands out either the
    /// decoded object — the codec's own result, unchanged — or the codec
    /// failure converted to the codec kind of the taxonomy; never a raw
    /// codec error, and never a panic.
    pub fn parse_json(bytes: &[u8]) -> (r: KubeFuture<T>)
        ensures
            r@.pending == 0,
            r@.outcome is Some,
            r@.outcome matches Some(Err(e)) ==> e is Json,
    {
        KubeFuture::from_codec_result(decode_json::<T>(bytes))
    }
}

impl<T: serde::de::DeserializeOwned + IntoKubeError> KubeFuture<T> {
    /// Parse the given bytes as an error payload of type `T` and return an
    /// asynchronous value of the type `U` the caller actually wanted, which
    /// always resolves as failed: with the decoded payload converted into
    /// the taxonomy when the decode succeeds, and with the decode's own
    /// codec failure when it does not. Either way the failure stays inside
    /// the closed taxonomy; there is no success path.
    pub fn parse_json_as_err<U>(bytes: &[u8]) -> (r: KubeFuture<U>)
        ensures
            r@.pending == 0,
            r@.outcome matches Some(o) && o is Err,
    {
        match decode_json::<T>(bytes) {
            Ok(payload) => KubeFuture::from_result(Err(payload.into_kube_error())),
            Err(e) => KubeFuture::from_result(Err(KubeError::from_json_error(e))),
        }
    }
}

/// Observable behaviour of an asynchronous sequence: the items it still
/// yields, in order, and how it ends once they are exhausted — cleanly, or
/// failing with an error. `live` is false once the termination has been
/// reported; `failure` is consumed together with it.
#[verifier::ext_equal]
pub ghost struct StreamModel<T> {
    pub items: Seq<T>,
    pub failure: Option<KubeError>,
    pub live: bool,
}

/// How one poll changes the sequence: it either yields the front item or
/// reports the termination and leaves the sequence completed.
pub open spec fn stream_step<T>(m: StreamModel<T>) -> StreamModel<T> {
    if m.items.len() > 0 {
        StreamModel { items: m.items.skip(1), failure: m.failure, live: m.live }
    } else {
        StreamModel { items: m.items, failure: None, live: false }
    }
}

/// What one poll of the sequence returns: the front item while any are
/// left, and then the termination — the clean end, or the failure.
pub open spec fn stream_signal<T>(m: StreamModel<T>) -> Result<Async<Option<T>>, KubeError> {
    if m.items.len() > 0 {
        Ok(Async::Ready(Some(m.items[0])))
    } else {
        match m.failure {
            Some(e) => Err(e),
            None => Ok(Async::Ready(None)),
        }
    }
}

/// Stream type used throughout the library: the sequence counterpart of
/// `KubeFuture`. It owns a poll-style sequence that yields zero or more
/// items and then terminates cleanly or fails with a `KubeError`, under the
/// same exclusive-ownership discipline as the asynchronous value.
pub struct KubeStream<T> {
    items: Vec<T>,
    failure: Option<KubeError>,
    live: bool,
}

impl<T> View for KubeStream<T> {
    type V = StreamModel<T>;

    closed spec fn view(&self) -> StreamModel<T> {
        StreamModel { items: self.items@, failure: self.failure, live: self.live }
    }
}

impl<T> KubeStream<T> {
    /// A sequence that yields `items` front first and then terminates:
    /// cleanly if `failure` is `None`, and failing with that error
    /// otherwise.
    pub fn new(items: Vec<T>, failure: Option<KubeError>) -> (r: KubeStream<T>)
        ensures
            r@ == (StreamModel { items: items@, failure, live: true }),
    {
        KubeStream { items, failure, live: true }
    }

    /// One step of the poll-style sequence protocol: yields the next item,
    /// or reports how the sequence ends. Polling is only permitted until
    /// the termination has been reported.
    pub fn poll_next(&mut self) -> (r: Result<Async<Option<T>>, KubeError>)
        requires
            old(self)@.live,
        ensures
            final(self)@ == stream_step(old(self)@),
            r == stream_signal(old(self)@),
    {
        if self.items.len() > 0 {
            Ok(Async::Ready(Some(self.items.remove(0))))
        } else {
            self.live = false;
            match self.failure.take() {
                Some(e) => Err(e),
                None => Ok(Async::Ready(None)),
            }
        }
    }
}

} // verus!
