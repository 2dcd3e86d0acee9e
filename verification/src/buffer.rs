//! Buffers between the code that ends spans and the exporter, in two
//! disciplines. The threshold-gated buffer can be flushed again and again and
//! hands out at most a fixed number of spans each time. The signal-gated
//! buffer is drained once, when its signal has fired. Delivery is at most
//! once in both: a batch that was handed out is gone from the buffer, whether
//! or not its export succeeds.

use vstd::prelude::*;
use vstd::string::*;
use crate::error::Error;

verus! {

/// What is said of a flush that cannot wait for its export.
pub const SYNC_FLUSH_UNSUPPORTED: &'static str =
    "Sync flush is not supported, use `force_flush` from `SpanProcessExt`";

/// How many spans one flush of a threshold-gated buffer hands out.
pub open spec fn batch_len<T>(buffered: Seq<T>, flush_size: usize) -> int {
    if buffered.len() > flush_size {
        flush_size as int
    } else {
        buffered.len() as int
    }
}

/// The spans that a flush hands out: the oldest, up to the flush size.
pub open spec fn flush_batch<T>(buffered: Seq<T>, flush_size: usize) -> Seq<T> {
    buffered.take(batch_len(buffered, flush_size))
}

/// The spans that a flush leaves in the buffer.
pub open spec fn flush_rest<T>(buffered: Seq<T>, flush_size: usize) -> Seq<T> {
    buffered.skip(batch_len(buffered, flush_size))
}

/// A buffer that is flushed on demand, a bounded batch at a time.
#[derive(Debug)]
pub struct WASMWorkerSpanProcessor<T> {
    spans: Vec<T>,
    flush_size: usize,
}

impl<T> View for WASMWorkerSpanProcessor<T> {
    type V = Seq<T>;

    /// The buffered spans, oldest first.
    closed spec fn view(&self) -> Seq<T> {
        self.spans@
    }
}

impl<T> WASMWorkerSpanProcessor<T> {
    /// The most spans that one flush hands out.
    pub closed spec fn flush_size(&self) -> usize {
        self.flush_size
    }

    pub fn new(flush_size: usize) -> (processor: Self)
        ensures
            processor@ == Seq::<T>::empty(),
            processor.flush_size() == flush_size,
    {
        WASMWorkerSpanProcessor { spans: Vec::new(), flush_size }
    }

    /// Takes no notice of a span that starts.
    pub fn on_start(&self) {
    }

    /// Buffers a span that has ended, behind those buffered before.
    pub fn on_end(&mut self, span: T)
        ensures
            final(self)@ == old(self)@.push(span),
            final(self).flush_size() == old(self).flush_size(),
    {
        self.spans.push(span);
    }

    /// How many spans are buffered.
    pub fn len(&self) -> (n: usize)
        ensures
            n == self@.len(),
    {
        self.spans.len()
    }

    /// A flush that cannot wait for its export is not offered: the answer
    /// is always the same error, and the buffer is not touched.
    pub fn force_flush_sync(&self) -> (outcome: Result<(), Error>)
        ensures
            outcome matches Err(Error::Other(message)) && message@ == SYNC_FLUSH_UNSUPPORTED@,
    {
        Err(Error::Other(String::from_str(SYNC_FLUSH_UNSUPPORTED)))
    }

    /// Shutting down leaves the buffer as it is.
    pub fn shutdown(&mut self) -> (outcome: Result<(), Error>)
        ensures
            outcome is Ok,
            *final(self) == *old(self),
    {
        Ok(())
    }
}

/// A span processor that is flushed when asked to.
pub trait SpanProcessExt<T> {
    /// The spans that wait for export, oldest first.
    spec fn pending(&self) -> Seq<T>;

    /// The most spans that one flush hands out.
    spec fn batch_limit(&self) -> usize;

    /// Takes the batch of one flush out of the processor: the oldest spans,
    /// up to the limit, oldest first. What is left stays for the next flush.
    fn force_flush(&mut self) -> (to_export: Vec<T>)
        ensures
            to_export@ == flush_batch(old(self).pending(), old(self).batch_limit()),
            final(self).pending() == flush_rest(old(self).pending(), old(self).batch_limit()),
            final(self).batch_limit() == old(self).batch_limit(),
    ;
}

impl<T> SpanProcessExt<T> for WASMWorkerSpanProcessor<T> {
    open spec fn pending(&self) -> Seq<T> {
        self@
    }

    open spec fn batch_limit(&self) -> usize {
        self.flush_size()
    }

    fn force_flush(&mut self) -> (to_export: Vec<T>) {
        let export_size = if self.spans.len() > self.flush_size {
            self.flush_size
        } else {
            self.spans.len()
        };
        let mut rest = self.spans.split_off(export_size);
        core::mem::swap(&mut self.spans, &mut rest);
        rest
    }
}

/// With a flush size of `n` and `n + k` spans buffered, `0 < k <= n`, a first
/// flush hands out the `n` oldest and leaves `k`, and a second hands out
/// those `k` and leaves none.
pub proof fn lemma_two_flushes<T>(buffered: Seq<T>, n: usize, k: usize)
    requires
        buffered.len() == n + k,
        0 < k <= n,
    ensures
        flush_batch(buffered, n) == buffered.take(n as int),
        flush_batch(buffered, n).len() == n,
        flush_rest(buffered, n).len() == k,
        flush_batch(flush_rest(buffered, n), n) == buffered.skip(n as int),
        flush_batch(flush_rest(buffered, n), n).len() == k,
        flush_rest(flush_rest(buffered, n), n).len() == 0,
        flush_batch(buffered, n) + flush_batch(flush_rest(buffered, n), n) == buffered,
{
    let rest = flush_rest(buffered, n);
    assert(rest.take(k as int) =~= rest);
    assert(buffered.take(n as int) + buffered.skip(n as int) =~= buffered);
}

/// A flush hands out and leaves, between them, exactly what was buffered, in
/// the order it was buffered.
pub proof fn lemma_flush_loses_nothing<T>(buffered: Seq<T>, flush_size: usize)
    ensures
        flush_batch(buffered, flush_size) + flush_rest(buffered, flush_size) == buffered,
        flush_batch(buffered, flush_size).len() <= flush_size,
{
    assert(flush_batch(buffered, flush_size) + flush_rest(buffered, flush_size) =~= buffered);
}

/// Where a signal-gated buffer stands.
#[derive(Clone, Copy, Debug, PartialEq, Eq, Structural)]
pub enum Gate {
    /// The signal has not fired; spans are taken in.
    Waiting,
    /// The signal has fired and the drain is due.
    Signalled,
    /// The one drain is done.
    Finished,
}

/// A signal-gated buffer as a mathematical value.
pub ghost struct SignalGatedView<T> {
    pub queue: Seq<T>,
    pub capacity: usize,
    pub gate: Gate,
}

/// A bounded queue that is drained once, after its signal has fired.
#[derive(Debug)]
pub struct SignalGatedBuffer<T> {
    queue: Vec<T>,
    capacity: usize,
    gate: Gate,
}

impl<T> View for SignalGatedBuffer<T> {
    type V = SignalGatedView<T>;

    closed spec fn view(&self) -> SignalGatedView<T> {
        SignalGatedView { queue: self.queue@, capacity: self.capacity, gate: self.gate }
    }
}

/// Whether the buffer takes a span in: before its drain, and while there is
/// room.
pub open spec fn accepts<T>(state: SignalGatedView<T>) -> bool {
    state.gate != Gate::Finished && state.queue.len() < state.capacity
}

pub open spec fn after_accept<T>(state: SignalGatedView<T>, span: T) -> SignalGatedView<T> {
    if accepts(state) {
        SignalGatedView { queue: state.queue.push(span), ..state }
    } else {
        state
    }
}

/// Whether a flush fires the signal: only the first does.
pub open spec fn fires<T>(state: SignalGatedView<T>) -> bool {
    state.gate == Gate::Waiting
}

pub open spec fn after_flush<T>(state: SignalGatedView<T>) -> SignalGatedView<T> {
    if fires(state) {
        SignalGatedView { gate: Gate::Signalled, ..state }
    } else {
        state
    }
}

/// The batch that the drain exports, if the drain is due: all that is
/// queued.
pub open spec fn drained<T>(state: SignalGatedView<T>) -> Option<Seq<T>> {
    if state.gate == Gate::Signalled {
        Some(state.queue)
    } else {
        None
    }
}

pub open spec fn after_drain<T>(state: SignalGatedView<T>) -> SignalGatedView<T> {
    if state.gate == Gate::Signalled {
        SignalGatedView { queue: Seq::empty(), gate: Gate::Finished, ..state }
    } else {
        state
    }
}

impl<T> SignalGatedBuffer<T> {
    pub fn new(capacity: usize) -> (buffer: Self)
        ensures
            buffer@ == (SignalGatedView::<T> {
                queue: Seq::empty(),
                capacity,
                gate: Gate::Waiting,
            }),
    {
        SignalGatedBuffer { queue: Vec::new(), capacity, gate: Gate::Waiting }
    }

    /// Queues a span behind those queued before. A span that comes when the
    /// queue is full, or after the drain, is not queued and comes back in
    /// the error.
    pub fn accept(&mut self, span: T) -> (outcome: Result<(), T>)
        ensures
            final(self)@ == after_accept(old(self)@, span),
            accepts(old(self)@) ==> outcome is Ok,
            !accepts(old(self)@) ==> outcome == Err::<(), T>(span),
    {
        if self.gate != Gate::Finished && self.queue.len() < self.capacity {
            self.queue.push(span);
            Ok(())
        } else {
            Err(span)
        }
    }

    /// Fires the signal. Only the first call does; any later one changes
    /// nothing. The result says whether this call fired it.
    pub fn flush(&mut self) -> (fired: bool)
        ensures
            fired == fires(old(self)@),
            final(self)@ == after_flush(old(self)@),
    {
        if self.gate == Gate::Waiting {
            self.gate = Gate::Signalled;
            true
        } else {
            false
        }
    }

    /// The step of the draining task. Once the signal has fired it takes
    /// all that is queued, oldest first, as the one batch to export, and the
    /// buffer is finished. Before the signal, and after the drain, there is
    /// nothing to export.
    pub fn drain(&mut self) -> (to_export: Option<Vec<T>>)
        ensures
            final(self)@ == after_drain(old(self)@),
            match to_export {
                Some(batch) => drained(old(self)@) == Some(batch@),
                None => drained(old(self)@) is None,
            },
    {
        if self.gate == Gate::Signalled {
            let mut batch: Vec<T> = Vec::new();
            core::mem::swap(&mut self.queue, &mut batch);
            self.gate = Gate::Finished;
            Some(batch)
        } else {
            None
        }
    }

    /// A flush that cannot wait for its export is not offered: the answer
    /// is always the same error, and the buffer is not touched.
    pub fn force_flush_sync(&self) -> (outcome: Result<(), Error>)
        ensures
            outcome matches Err(Error::Other(message)) && message@ == SYNC_FLUSH_UNSUPPORTED@,
    {
        Err(Error::Other(String::from_str(SYNC_FLUSH_UNSUPPORTED)))
    }
}

/// Once the signal has fired there is exactly one export: the drain that
/// follows carries all the spans queued up to then, a second signal changes
/// nothing, and no later drain exports anything, whatever comes in between.
pub proof fn lemma_one_export_per_signal<T>(state: SignalGatedView<T>, late: T)
    requires
        state.gate == Gate::Waiting,
    ensures
        fires(state),
        drained(after_flush(state)) == Some(state.queue),
        !fires(after_flush(state)),
        after_flush(after_flush(state)) == after_flush(state),
        !fires(after_drain(after_flush(state))),
        after_flush(after_drain(after_flush(state))) == after_drain(after_flush(state)),
        drained(after_drain(after_flush(state))) is None,
        !accepts(after_drain(after_flush(state))),
        drained(after_accept(after_drain(after_flush(state)), late)) is None,
{
}

/// Before the signal nothing is exported, however many spans are queued.
pub proof fn lemma_no_export_before_signal<T>(state: SignalGatedView<T>)
    requires
        state.gate == Gate::Waiting,
    ensures
        drained(state) is None,
        after_drain(state) == state,
{
}

/// What a host is to do once a buffer has been flushed.
#[derive(Debug)]
pub enum FlushAction<T> {
    /// Export this batch now.
    Export(Vec<T>),
    /// Let the draining task run: the signal has just fired.
    Drain,
    /// Nothing: the signal had fired before.
    Nothing,
}

/// A flush action as a mathematical value.
pub ghost enum FlushActionView<T> {
    Export(Seq<T>),
    Drain,
    Nothing,
}

impl<T> View for FlushAction<T> {
    type V = FlushActionView<T>;

    open spec fn view(&self) -> FlushActionView<T> {
        match self {
            FlushAction::Export(batch) => FlushActionView::Export(batch@),
            FlushAction::Drain => FlushActionView::Drain,
            FlushAction::Nothing => FlushActionView::Nothing,
        }
    }
}

/// The two disciplines behind one interface: a buffer takes spans in, and a
/// flush says what the host is to do next.
pub trait BufferPolicy<T> {
    /// The spans held, oldest first.
    spec fn buffered(&self) -> Seq<T>;

    /// Whether a span that comes now is taken in.
    spec fn takes_spans(&self) -> bool;

    /// What a flush now asks of the host.
    spec fn flush_action(&self) -> FlushActionView<T>;

    /// The spans held after a flush now.
    spec fn buffered_after_flush(&self) -> Seq<T>;

    /// Takes a span in behind those held, or hands it back.
    fn accept(&mut self, span: T) -> (outcome: Result<(), T>)
        ensures
            old(self).takes_spans() ==> outcome is Ok && final(self).buffered() == old(
                self,
            ).buffered().push(span),
            !old(self).takes_spans() ==> outcome == Err::<(), T>(span) && final(self).buffered()
                == old(self).buffered(),
    ;

    /// Flushes, and says what the host is to do.
    fn flush(&mut self) -> (action: FlushAction<T>)
        ensures
            action@ == old(self).flush_action(),
            final(self).buffered() == old(self).buffered_after_flush(),
    ;
}

impl<T> BufferPolicy<T> for WASMWorkerSpanProcessor<T> {
    open spec fn buffered(&self) -> Seq<T> {
        self@
    }

    open spec fn takes_spans(&self) -> bool {
        true
    }

    open spec fn flush_action(&self) -> FlushActionView<T> {
        FlushActionView::Export(flush_batch(self@, self.flush_size()))
    }

    open spec fn buffered_after_flush(&self) -> Seq<T> {
        flush_rest(self@, self.flush_size())
    }

    fn accept(&mut self, span: T) -> (outcome: Result<(), T>) {
        self.on_end(span);
        Ok(())
    }

    fn flush(&mut self) -> (action: FlushAction<T>) {
        FlushAction::Export(self.force_flush())
    }
}

impl<T> BufferPolicy<T> for SignalGatedBuffer<T> {
    open spec fn buffered(&self) -> Seq<T> {
        self@.queue
    }

    open spec fn takes_spans(&self) -> bool {
        accepts(self@)
    }

    open spec fn flush_action(&self) -> FlushActionView<T> {
        if fires(self@) {
            FlushActionView::Drain
        } else {
            FlushActionView::Nothing
        }
    }

    open spec fn buffered_after_flush(&self) -> Seq<T> {
        self@.queue
    }

    fn accept(&mut self, span: T) -> (outcome: Result<(), T>) {
        SignalGatedBuffer::accept(self, span)
    }

    fn flush(&mut self) -> (action: FlushAction<T>) {
        if SignalGatedBuffer::flush(self) {
            FlushAction::Drain
        } else {
            FlushAction::Nothing
        }
    }
}

} // verus!
