//! The bridge from a real-time audio engine to the control loop, without the
//! engine: the callback's side fills capture windows and hands each full one
//! over a queue of one place, the consumer's side takes them out, and a
//! counter keeps book of the deadlines the engine missed.

use vstd::prelude::*;
use std::sync::mpsc::{sync_channel, Receiver, RecvError, RecvTimeoutError, SyncSender};
use std::time::{Duration, Instant};
use crate::audio::{AudioSourceOptions, StereoSample, StereoSampleView};
use crate::Error;

verus! {

/// `std::sync::mpsc::Receiver`, the taking end of a queue.
#[verifier::external_type_specification]
#[verifier::external_body]
#[verifier::reject_recursive_types(T)]
pub struct ExReceiver<T>(Receiver<T>);

/// `std::sync::mpsc::SyncSender`, the giving end of a bounded queue.
#[verifier::external_type_specification]
#[verifier::external_body]
#[verifier::reject_recursive_types(T)]
pub struct ExSyncSender<T>(SyncSender<T>);

/// `std::sync::mpsc::RecvError`: the giving end is gone and the queue empty.
#[verifier::external_type_specification]
#[verifier::external_body]
pub struct ExRecvError(RecvError);

/// `std::time::Instant`, a reading of the monotonic clock.
#[verifier::external_type_specification]
#[verifier::external_body]
pub struct ExInstant(Instant);

/// `Instant::now` of std reads the clock; nothing is claimed of the reading.
pub assume_specification[ Instant::now ]() -> (t: Instant);

/// `Instant::elapsed` of std: the time since `t`; nothing is claimed of it.
pub assume_specification[ Instant::elapsed ](t: &Instant) -> (d: Duration);

/// `Duration::as_nanos` of std: the span in nanoseconds.  A span is opaque
/// here, so nothing is claimed of the number.
pub assume_specification[ Duration::as_nanos ](d: &Duration) -> (n: u128);

/// `sync_channel` of std: a queue that holds `bound` items, with its two
/// ends.  The ends are opaque, so nothing is claimed of them.
pub assume_specification<T>[ sync_channel::<T> ](bound: usize) -> (ends: (
    SyncSender<T>,
    Receiver<T>,
));

/// `Receiver::recv` of std: waits for the next item.  Whether one comes is
/// the giver's doing, so nothing is claimed of the result.
#[verifier::external_body]
fn wait<S>(queue: &Receiver<S>) -> (r: Result<S, RecvError>) {
    queue.recv()
}

/// Why a bounded wait ended without an item.
#[derive(Clone, Copy, Debug, PartialEq, Eq, Structural)]
pub enum Lapse {
    /// The time is up; the giving end may still deliver.
    Timeout,
    /// The giving end is gone and the queue empty.
    Disconnected,
}

/// `Receiver::recv_timeout` of std: waits for the next item, no longer than
/// `timeout`.  Of std's two reasons for coming back without one each is
/// handed on under its own name.  Nothing is claimed of the result.
#[verifier::external_body]
fn wait_for<S>(queue: &Receiver<S>, timeout: Duration) -> (r: Result<S, Lapse>) {
    match queue.recv_timeout(timeout) {
        Ok(item) => Ok(item),
        Err(RecvTimeoutError::Timeout) => Err(Lapse::Timeout),
        Err(RecvTimeoutError::Disconnected) => Err(Lapse::Disconnected),
    }
}

/// `SyncSender::send` of std: puts `item` into the queue, waiting while the
/// queue is full.  When the taking end is gone the item comes back.  Which
/// of the two happens is the taker's doing, so nothing is claimed.
#[verifier::external_body]
fn hand_over<S>(queue: &SyncSender<S>, item: S) -> (r: Result<(), S>) {
    match queue.send(item) {
        Ok(()) => Ok(()),
        Err(back) => Err(back.0),
    }
}

/// Samples per channel in the windows that the bridge delivers.
pub const WINDOW: usize = 768;

/// Full windows that may wait for the consumer.  With one already waiting the
/// callback itself waits: nothing is dropped, and nothing piles up.
pub const QUEUE: usize = 1;

/// Nanoseconds in a second.
pub const SECOND: u64 = 1_000_000_000;

/// What is said of a producer that is gone.
pub open spec fn disconnected() -> Seq<char> {
    "Audio producer is disconnected"@
}

/// What is said of a wait that ended without a window.
pub open spec fn timed_out() -> Seq<char> {
    "Audio timed out"@
}

/// What is said of a consumer that is gone.
pub open spec fn abandoned() -> Seq<char> {
    "Audio consumer is disconnected"@
}

/// What the consumer gets for the outcome of an unbounded wait: the window,
/// or, with the producer gone, an error that no retry will mend.
pub fn received<S>(outcome: Result<S, RecvError>) -> (r: Result<S, Error>)
    ensures
        match outcome {
            Ok(sample) => r == Ok::<S, Error>(sample),
            Err(_) => r matches Err(Error::Unrecoverable(text)) && text@ == disconnected(),
        },
{
    match outcome {
        Ok(sample) => Ok(sample),
        Err(_) => Err(Error::Unrecoverable("Audio producer is disconnected".to_owned())),
    }
}

/// What the consumer gets for the outcome of a bounded wait: the window; a
/// timeout if none came in time, which a later try may mend; or, with the
/// producer gone, an error that none will.
pub fn received_in_time<S>(outcome: Result<S, Lapse>) -> (r: Result<S, Error>)
    ensures
        match outcome {
            Ok(sample) => r == Ok::<S, Error>(sample),
            Err(Lapse::Timeout) => r matches Err(Error::Timeout(text)) && text@ == timed_out(),
            Err(Lapse::Disconnected) => r matches Err(Error::Unrecoverable(text)) && text@
                == disconnected(),
        },
{
    match outcome {
        Ok(sample) => Ok(sample),
        Err(Lapse::Timeout) => Err(Error::Timeout("Audio timed out".to_owned())),
        Err(Lapse::Disconnected) => Err(
            Error::Unrecoverable("Audio producer is disconnected".to_owned()),
        ),
    }
}

/// The consumer's end of the bridge.
#[verifier::reject_recursive_types(T)]
pub struct SampleReceiver<T> {
    recv: Receiver<StereoSample<T>>,
}

impl<T> SampleReceiver<T> {
    /// Waits for the next full window.  Fails, and will fail ever after,
    /// once the producer is gone and nothing is left in the queue.
    pub fn recv(&self) -> (r: Result<StereoSample<T>, Error>)
        ensures
            r matches Err(e) ==> e matches Error::Unrecoverable(text) && text@ == disconnected(),
    {
        received(wait(&self.recv))
    }

    /// Waits for the next full window, no longer than `timeout`.
    pub fn recv_timeout(&self, timeout: Duration) -> (r: Result<StereoSample<T>, Error>)
        ensures
            r matches Err(e) ==> (e matches Error::Timeout(text) && text@ == timed_out()) || (
            e matches Error::Unrecoverable(text) && text@ == disconnected()),
    {
        received_in_time(wait_for(&self.recv, timeout))
    }

    /// The next full window if one is waiting.
    pub fn try_recv(&self) -> (r: Result<StereoSample<T>, Error>)
        ensures
            r matches Err(e) ==> (e matches Error::Timeout(text) && text@ == timed_out()) || (
            e matches Error::Unrecoverable(text) && text@ == disconnected()),
    {
        self.recv_timeout(Duration::from_secs(0))
    }
}

/// What became of a block: the window is still filling, or it was full and
/// is on its way to the consumer.
#[derive(Clone, Copy, Debug, PartialEq, Eq, Structural)]
pub enum Progress {
    Filling,
    Delivered,
}

/// What the callback's side says of a window that it tried to hand over.
pub fn handed_over<S>(outcome: Result<(), S>) -> (r: Result<Progress, Error>)
    ensures
        match outcome {
            Ok(()) => r == Ok::<Progress, Error>(Progress::Delivered),
            Err(_) => r matches Err(Error::Unrecoverable(text)) && text@ == abandoned(),
        },
{
    match outcome {
        Ok(()) => Ok(Progress::Delivered),
        Err(_) => Err(Error::Unrecoverable("Audio consumer is disconnected".to_owned())),
    }
}

/// The callback's end of the bridge: the window that is filling and the
/// queue that full windows go into.
#[verifier::reject_recursive_types(T)]
pub struct FrameHandler<T> {
    sample: StereoSample<T>,
    sender: SyncSender<StereoSample<T>>,
}

impl<T: Copy> FrameHandler<T> {
    /// The window that is filling.
    pub closed spec fn window(&self) -> StereoSampleView<T> {
        self.sample@
    }

    /// The giving end of the queue toward the consumer.
    pub closed spec fn queue(&self) -> SyncSender<StereoSample<T>> {
        self.sender
    }

    /// Samples per channel of the windows that are delivered.
    pub open spec fn window_size(&self) -> nat {
        self.window().target_size
    }

    /// An empty window of the handler's size, opened at `time`.
    pub open spec fn fresh(&self, rate: u32, time: u64) -> StereoSampleView<T> {
        StereoSampleView {
            target_size: self.window_size(),
            left: Seq::<T>::empty(),
            right: Seq::<T>::empty(),
            rate,
            time,
        }
    }

    /// Puts one block into the window, as far as there is room.  A window
    /// that is full thereby is given out, and an empty one of the same size
    /// for `rate` and `time` takes its place.
    pub fn complete(&mut self, left: &[T], right: &[T], rate: u32, time: u64) -> (full: Option<
        StereoSample<T>,
    >)
        requires
            left@.len() == right@.len(),
        ensures
            final(self).queue() == old(self).queue(),
            final(self).window().target_size == old(self).window().target_size,
            match full {
                Some(window) => old(self).window().extended(left@, right@).full() && window@
                    == old(self).window().extended(left@, right@) && final(self).window()
                    == old(self).fresh(rate, time),
                None => !old(self).window().extended(left@, right@).full() && final(self).window()
                    == old(self).window().extended(left@, right@),
            },
    {
        if self.sample.extend(left, right) {
            let mut full = StereoSample::new(self.sample.target_size(), rate, time);
            core::mem::swap(&mut full, &mut self.sample);
            Some(full)
        } else {
            None
        }
    }

    /// Takes one block from the engine.  The block goes into the window as
    /// far as there is room.  A window that is full thereby, the one that
    /// [`complete`](Self::complete) gives out, is handed to the consumer,
    /// waiting if the consumer still has the one before, and an empty one
    /// for `rate` and `time`, the engine's rate and clock, takes its place.
    /// Fails if the consumer is gone.
    pub fn process(&mut self, left: &[T], right: &[T], rate: u32, time: u64) -> (r: Result<
        Progress,
        Error,
    >)
        requires
            left@.len() == right@.len(),
        ensures
            final(self).queue() == old(self).queue(),
            final(self).window().target_size == old(self).window().target_size,
            !old(self).window().extended(left@, right@).full() ==> r == Ok::<Progress, Error>(
                Progress::Filling,
            ) && final(self).window() == old(self).window().extended(left@, right@),
            old(self).window().extended(left@, right@).full() ==> final(self).window()
                == old(self).fresh(rate, time) && (r == Ok::<Progress, Error>(Progress::Delivered)
                || (r matches Err(Error::Unrecoverable(text)) && text@ == abandoned())),
    {
        match self.complete(left, right, rate, time) {
            Some(full) => handed_over(hand_over(&self.sender, full)),
            None => Ok(Progress::Filling),
        }
    }
}

/// Makes the two ends of a bridge for an engine that runs at `rate` and
/// whose clock shows `time`: windows of 768 samples per channel, one place
/// in the queue.
pub fn capture_bridge<T: Copy>(rate: u32, time: u64) -> (ends: (FrameHandler<T>, SampleReceiver<T>))
    ensures
        ends.0.window_size() == WINDOW,
        ends.0.window() == ends.0.fresh(rate, time),
{
    let (sender, recv) = sync_channel(QUEUE);
    let handler = FrameHandler { sample: StereoSample::new(WINDOW, rate, time), sender };
    (handler, SampleReceiver { recv })
}

/// One report on missed deadlines.
#[derive(Clone, Copy, Debug, PartialEq, Eq, Structural)]
pub struct DropReport {
    /// Nanoseconds since the report before, or since the start.
    pub period: u64,
    /// Deadlines missed in that time.
    pub drops: usize,
    /// Nanoseconds since the start.
    pub total_period: u64,
    /// Deadlines missed since the start.
    pub total_drops: usize,
}

/// Samples per second that the loss is reckoned for.
pub const NOMINAL_RATE: u64 = 48000;

/// Samples in one of the engine's blocks that the loss is reckoned for.  A
/// deadline is missed for one block, so `NOMINAL_RATE / NOMINAL_BLOCK` blocks
/// were due in each second.
pub const NOMINAL_BLOCK: u64 = 256;

/// A quotient that is kept exact instead of being worked out.
#[derive(Clone, Copy, Debug, PartialEq, Eq, Structural)]
pub struct Ratio {
    pub num: u128,
    pub den: u128,
}

impl DropReport {
    /// Deadlines missed per second of the period: `drops / seconds`.
    pub fn drops_per_second(self) -> (r: Ratio)
        ensures
            r.num == self.drops * SECOND,
            r.den == self.period,
    {
        Ratio { num: self.drops as u128 * SECOND as u128, den: self.period as u128 }
    }

    /// Of the blocks that were due in the period, how many in a hundred were
    /// missed: `drops / (seconds * 48000 / 256) * 100`.
    pub fn loss_per_cent(self) -> (r: Ratio)
        ensures
            r.num == self.drops * 100 * NOMINAL_BLOCK * SECOND,
            r.den == self.period * NOMINAL_RATE,
    {
        Ratio {
            num: self.drops as u128 * 100 * NOMINAL_BLOCK as u128 * SECOND as u128,
            den: self.period as u128 * NOMINAL_RATE as u128,
        }
    }

    /// Deadlines missed per second since the start: `total_drops / seconds`.
    pub fn total_drops_per_second(self) -> (r: Ratio)
        ensures
            r.num == self.total_drops * SECOND,
            r.den == self.total_period,
    {
        Ratio { num: self.total_drops as u128 * SECOND as u128, den: self.total_period as u128 }
    }
}

/// What the book of missed deadlines holds, as mathematics sees it.  Times
/// are nanoseconds since the book was opened.
pub struct EventHandlerView {
    /// Seconds that must have passed before the next report; 0 for none.
    pub stats: u16,
    /// When the running period began.
    pub period_start: u64,
    /// Deadlines missed in the running period.
    pub drops: nat,
    /// Deadlines missed in all.
    pub total_drops: nat,
}

impl EventHandlerView {
    /// No more deadlines were missed in the running period than in all, and
    /// no more in all than the book can count.  Every book is so.
    pub open spec fn wf(self) -> bool {
        self.drops <= self.total_drops <= usize::MAX
    }
}

/// The book after a deadline was missed at `now`, and the report that is
/// due.  A report is due when reports are wanted and more than the wanted
/// seconds have passed since the last; the period then starts anew.
pub open spec fn recorded(before: EventHandlerView, now: u64) -> (EventHandlerView, Option<
    DropReport,
>) {
    let since = if now >= before.period_start {
        now - before.period_start
    } else {
        0
    };
    if before.stats > 0 && since > before.stats * SECOND {
        (
            EventHandlerView { period_start: now, drops: 0, total_drops: before.total_drops + 1, ..before },
            Some(
                DropReport {
                    period: since as u64,
                    drops: (before.drops + 1) as usize,
                    total_period: now,
                    total_drops: (before.total_drops + 1) as usize,
                },
            ),
        )
    } else {
        (
            EventHandlerView {
                drops: before.drops + 1,
                total_drops: before.total_drops + 1,
                ..before
            },
            None,
        )
    }
}

/// A count of nanoseconds as 64 bits hold it: itself, or the most that they
/// hold.
pub fn in_64_bits(nanos: u128) -> (r: u64)
    ensures
        r == (if nanos > u64::MAX {
            u64::MAX as u128
        } else {
            nanos
        }),
{
    if nanos > u64::MAX as u128 {
        u64::MAX
    } else {
        nanos as u64
    }
}

/// Keeps book of the deadlines that the engine missed and says when a report
/// is due.
pub struct EventHandler {
    opened: Instant,
    target_secs: u16,
    stats_period_start: u64,
    frames_dropped: usize,
    frames_dropped_total: usize,
}

impl View for EventHandler {
    type V = EventHandlerView;

    closed spec fn view(&self) -> EventHandlerView {
        EventHandlerView {
            stats: self.target_secs,
            period_start: self.stats_period_start,
            drops: self.frames_dropped as nat,
            total_drops: self.frames_dropped_total as nat,
        }
    }
}

impl EventHandler {
    #[verifier::type_invariant]
    spec fn inv(self) -> bool {
        self.frames_dropped <= self.frames_dropped_total
    }

    /// The moment the book was opened, from which the time since the start
    /// is reckoned.
    pub closed spec fn opened_at(&self) -> Instant {
        self.opened
    }

    /// Opens the book now.  A report is due every `stats` seconds, never if
    /// `stats` is 0.
    pub fn new(stats: u16) -> (r: Self)
        ensures
            r@ == (EventHandlerView { stats, period_start: 0, drops: 0, total_drops: 0 }),
            r@.wf(),
    {
        EventHandler {
            opened: Instant::now(),
            target_secs: stats,
            stats_period_start: 0,
            frames_dropped: 0,
            frames_dropped_total: 0,
        }
    }

    /// Opens the book now, for what a source was told.
    pub fn for_source(options: AudioSourceOptions) -> (r: Self)
        ensures
            r@ == (EventHandlerView {
                stats: options.stats,
                period_start: 0,
                drops: 0,
                total_drops: 0,
            }),
            r@.wf(),
    {
        Self::new(options.stats)
    }

    /// Deadlines missed in the running period.
    pub fn drops(&self) -> (r: usize)
        ensures
            r == self@.drops,
            self@.wf(),
    {
        proof {
            use_type_invariant(self);
        }
        self.frames_dropped
    }

    /// Deadlines missed in all.
    pub fn total_drops(&self) -> (r: usize)
        ensures
            r == self@.total_drops,
            self@.wf(),
    {
        proof {
            use_type_invariant(self);
        }
        self.frames_dropped_total
    }

    /// Nanoseconds since the book was opened, as far as 64 bits count.
    fn age(&self) -> u64 {
        in_64_bits(self.opened.elapsed().as_nanos())
    }

    /// Enters a missed deadline at `now`, in nanoseconds since the book was
    /// opened, and returns the report if one is due.
    pub fn record(&mut self, now: u64) -> (r: Option<DropReport>)
        requires
            old(self)@.total_drops < usize::MAX,
        ensures
            old(self)@.wf(),
            final(self)@.wf(),
            (final(self)@, r) == recorded(old(self)@, now),
            final(self).opened_at() == old(self).opened_at(),
    {
        proof {
            use_type_invariant(&*self);
        }
        let drops = self.frames_dropped + 1;
        let total_drops = self.frames_dropped_total + 1;
        let since = if now >= self.stats_period_start {
            now - self.stats_period_start
        } else {
            0
        };
        if self.target_secs > 0 && since > self.target_secs as u64 * SECOND {
            *self = EventHandler {
                opened: self.opened,
                target_secs: self.target_secs,
                stats_period_start: now,
                frames_dropped: 0,
                frames_dropped_total: total_drops,
            };
            Some(DropReport { period: since, drops, total_period: now, total_drops })
        } else {
            *self = EventHandler {
                opened: self.opened,
                target_secs: self.target_secs,
                stats_period_start: self.stats_period_start,
                frames_dropped: drops,
                frames_dropped_total: total_drops,
            };
            None
        }
    }

    /// Enters a deadline that the engine has just missed and returns the
    /// report if one is due: what [`record`](Self::record) does with the
    /// clock's reading.
    pub fn xrun(&mut self) -> (r: Option<DropReport>)
        requires
            old(self)@.total_drops < usize::MAX,
        ensures
            old(self)@.wf(),
            final(self)@.wf(),
            exists|now: u64| (final(self)@, r) == recorded(old(self)@, now),
            final(self).opened_at() == old(self).opened_at(),
    {
        let now = self.age();
        self.record(now)
    }
}

} // verus!
