//! Capture windows and the two states of a source of them.

use vstd::prelude::*;
use std::time::Duration;
use crate::Error;

verus! {

/// What a source is told when it is switched on.
#[derive(Clone, Copy, Debug)]
pub struct AudioSourceOptions {
    /// Seconds between two reports on missed deadlines; 0 turns them off.
    pub stats: u16,
}

/// The span of `secs` whole seconds.
pub uninterp spec fn seconds(secs: u64) -> Duration;

/// `Duration::from_secs` of std: the span of `secs` whole seconds.  A span is
/// opaque here; all that is claimed is that the same number gives the same
/// span.
pub assume_specification[ Duration::from_secs ](secs: u64) -> (d: Duration)
    ensures
        d == seconds(secs),
;

/// A source that is configured but delivers nothing yet.  All it can do is
/// start.
pub trait InactiveAudioSource: Sized {
    type ActiveType: ActiveAudioSource;

    /// What starting may come to.  Each kind of source has its own answer;
    /// one that gives none leaves every outcome open.
    open spec fn activated(
        &self,
        options: AudioSourceOptions,
        r: Result<Self::ActiveType, Error>,
    ) -> bool {
        true
    }

    /// Starts the source.  The inactive value is used up; on failure it is
    /// lost with the error.
    fn activate(self, options: AudioSourceOptions) -> (r: Result<Self::ActiveType, Error>)
        ensures
            self.activated(options, r),
    ;
}

/// A source that delivers full capture windows.
pub trait ActiveAudioSource: Sized {
    /// What one sample of one channel is.
    type Sample: Copy;

    type InactiveType;

    /// What a wait without end may come to: the source as it is left, and
    /// the window or the error.  Each kind of source has its own answer;
    /// one that gives none leaves every outcome open.
    open spec fn received(
        &self,
        after: &Self,
        r: Result<StereoSample<Self::Sample>, Error>,
    ) -> bool {
        true
    }

    /// What a wait of no more than `timeout` may come to.
    open spec fn received_within(
        &self,
        timeout: Duration,
        after: &Self,
        r: Result<StereoSample<Self::Sample>, Error>,
    ) -> bool {
        true
    }

    /// Stops the source and hands back its inactive form.
    fn deactivate(self) -> Result<Self::InactiveType, Error>;

    /// The source's sample clock.  It never runs backwards; its unit is the
    /// source's own.
    fn cur_time(&self) -> u64;

    /// Waits for the next full window, or for the source to be gone.
    fn recv(&mut self) -> (r: Result<StereoSample<Self::Sample>, Error>)
        ensures
            old(self).received(final(self), r),
    ;

    /// Waits for the next full window, but no longer than `timeout`.
    fn recv_timeout(&mut self, timeout: Duration) -> (r: Result<
        StereoSample<Self::Sample>,
        Error,
    >)
        ensures
            old(self).received_within(timeout, final(self), r),
    ;

    /// The next full window if one is waiting: a wait of no time.
    fn try_recv(&mut self) -> (r: Result<StereoSample<Self::Sample>, Error>)
        ensures
            old(self).received_within(seconds(0), final(self), r),
    {
        self.recv_timeout(Duration::from_secs(0))
    }

    /// The windows to come, each waited for.
    fn iter(&mut self) -> (r: Iter<'_, Self>)
        ensures
            *r.src == *old(self),
            *final(r.src) == *final(self),
    {
        Iter { src: self }
    }

    /// The windows that are waiting now.
    fn try_iter(&mut self) -> (r: TryIter<'_, Self>)
        ensures
            *r.src == *old(self),
            *final(r.src) == *final(self),
    {
        TryIter { src: self }
    }
}

/// The window of a wait that ended well; nothing for one that failed.
pub open spec fn window_of<S>(r: Result<S, Error>) -> Option<S> {
    match r {
        Ok(sample) => Some(sample),
        Err(_) => None,
    }
}

/// Walks a source's windows, waiting for each.
pub struct Iter<'a, T: ActiveAudioSource> {
    /// The walker's hold on its source.
    pub src: &'a mut T,
}

impl<'a, T: ActiveAudioSource> Iter<'a, T> {
    /// The next window: what one wait without end gives; `None` once the
    /// source fails.
    pub fn next(&mut self) -> (r: Option<StereoSample<T::Sample>>)
        ensures
            exists|outcome: Result<StereoSample<T::Sample>, Error>|
                old(self).src.received(final(self).src, outcome) && r == window_of(outcome),
            *final(final(self).src) == *final(old(self).src),
    {
        let outcome = self.src.recv();
        let ghost seen = outcome;
        let r = match outcome {
            Ok(sample) => Some(sample),
            Err(_) => None,
        };
        assert(old(self).src.received(self.src, seen) && r == window_of(seen));
        r
    }
}

/// Walks the windows that a source has waiting, without waiting for more.
pub struct TryIter<'a, T: ActiveAudioSource> {
    /// The walker's hold on its source.
    pub src: &'a mut T,
}

impl<'a, T: ActiveAudioSource> TryIter<'a, T> {
    /// The next waiting window: what a wait of no time gives; `None` when
    /// none is waiting.
    pub fn next(&mut self) -> (r: Option<StereoSample<T::Sample>>)
        ensures
            exists|outcome: Result<StereoSample<T::Sample>, Error>|
                old(self).src.received_within(seconds(0), final(self).src, outcome) && r
                    == window_of(outcome),
            *final(final(self).src) == *final(old(self).src),
    {
        let outcome = self.src.try_recv();
        let ghost seen = outcome;
        let r = match outcome {
            Ok(sample) => Some(sample),
            Err(_) => None,
        };
        assert(old(self).src.received_within(seconds(0), self.src, seen) && r == window_of(seen));
        r
    }
}

/// What a capture window holds, as mathematics sees it.
pub struct StereoSampleView<T> {
    /// Samples per channel that the window takes.
    pub target_size: nat,
    /// The left channel's samples so far, oldest first.
    pub left: Seq<T>,
    /// The right channel's samples so far, oldest first.
    pub right: Seq<T>,
    /// Samples per second.
    pub rate: u32,
    /// The source's clock when the window was opened.
    pub time: u64,
}

impl<T> StereoSampleView<T> {
    /// Both channels are equally long and no longer than the window.
    pub open spec fn wf(self) -> bool {
        self.left.len() == self.right.len() <= self.target_size
    }

    /// The window holds all the samples it takes.
    pub open spec fn full(self) -> bool {
        self.left.len() == self.target_size
    }

    /// How many of `offered` samples per channel the window still takes.
    pub open spec fn room_for(self, offered: nat) -> nat {
        if self.target_size - self.left.len() > offered {
            offered
        } else {
            (self.target_size - self.left.len()) as nat
        }
    }

    /// The window after a block was offered: it has grown by as much of the
    /// block as it had room for, and the rest of the block is lost.
    pub open spec fn extended(self, left: Seq<T>, right: Seq<T>) -> Self {
        StereoSampleView {
            left: self.left + left.take(self.room_for(left.len()) as int),
            right: self.right + right.take(self.room_for(left.len()) as int),
            ..self
        }
    }
}

/// One capture window: a fixed number of samples of the left and of the
/// right channel, filled block by block.
#[derive(Debug)]
pub struct StereoSample<T> {
    sample_size: usize,
    left: Vec<T>,
    right: Vec<T>,
    rate: u32,
    time: u64,
}

impl<T> View for StereoSample<T> {
    type V = StereoSampleView<T>;

    closed spec fn view(&self) -> StereoSampleView<T> {
        StereoSampleView {
            target_size: self.sample_size as nat,
            left: self.left@,
            right: self.right@,
            rate: self.rate,
            time: self.time,
        }
    }
}

/// Appends the first `n` items of `from` to `to`.
fn append_first<T: Copy>(to: &mut Vec<T>, from: &[T], n: usize)
    requires
        n <= from@.len(),
    ensures
        final(to)@ == old(to)@ + from@.take(n as int),
{
    let mut i: usize = 0;
    while i < n
        invariant
            i <= n <= from@.len(),
            to@ == old(to)@ + from@.take(i as int),
        decreases n - i,
    {
        to.push(from[i]);
        i += 1;
        assert(from@.take(i as int) == from@.take(i - 1).push(from@[i - 1]));
    }
}

/// Exchanges `a` with `c` and `b` with `d`.
fn exchange<T>(a: &mut Vec<T>, b: &mut Vec<T>, c: &mut Vec<T>, d: &mut Vec<T>)
    ensures
        *final(a) == *old(c),
        *final(c) == *old(a),
        *final(b) == *old(d),
        *final(d) == *old(b),
    no_unwind
{
    core::mem::swap(a, c);
    core::mem::swap(b, d);
}

impl<T> StereoSample<T> {
    #[verifier::type_invariant]
    spec fn inv(self) -> bool {
        self.left@.len() == self.right@.len() <= self.sample_size
    }
}

impl<T: Copy> StereoSample<T> {
    /// An empty window for `sample_size` samples per channel.
    pub fn new(sample_size: usize, rate: u32, time: u64) -> (r: Self)
        ensures
            r@ == (StereoSampleView {
                target_size: sample_size as nat,
                left: Seq::<T>::empty(),
                right: Seq::<T>::empty(),
                rate,
                time,
            }),
    {
        StereoSample {
            sample_size,
            rate,
            left: Vec::with_capacity(sample_size),
            right: Vec::with_capacity(sample_size),
            time,
        }
    }

    /// Appends a block of samples, as far as the window has room for it, and
    /// says whether the window is now full.  What does not fit is dropped.
    pub fn extend(&mut self, left: &[T], right: &[T]) -> (full: bool)
        requires
            left@.len() == right@.len(),
        ensures
            final(self)@ == old(self)@.extended(left@, right@),
            final(self)@.wf(),
            full == final(self)@.full(),
            old(self)@.full() ==> final(self)@ == old(self)@,
    {
        proof {
            use_type_invariant(&*self);
        }
        let len = left.len();
        let remaining = self.sample_size - self.left.len();
        let (fits, full) = if remaining > len {
            (len, false)
        } else {
            (remaining, true)
        };
        // the channels grow outside the window, where they may differ in
        // length for a moment
        let mut l: Vec<T> = Vec::new();
        let mut r: Vec<T> = Vec::new();
        exchange(&mut self.left, &mut self.right, &mut l, &mut r);
        append_first(&mut l, left, fits);
        append_first(&mut r, right, fits);
        exchange(&mut self.left, &mut self.right, &mut l, &mut r);
        full
    }

    /// Samples per channel in the window so far.
    pub fn len(&self) -> (r: usize)
        ensures
            r == self@.left.len(),
    {
        self.left.len()
    }

    /// Samples per channel that the window takes.
    pub fn target_size(&self) -> (r: usize)
        ensures
            r == self@.target_size,
    {
        self.sample_size
    }

    /// Samples per second.
    pub fn rate(&self) -> (r: u32)
        ensures
            r == self@.rate,
    {
        self.rate
    }

    /// The source's clock when the window was opened.
    pub fn time(&self) -> (r: u64)
        ensures
            r == self@.time,
    {
        self.time
    }

    /// The left channel's samples so far, oldest first.
    pub fn left(&self) -> (r: &[T])
        ensures
            r@ == self@.left,
    {
        self.left.as_slice()
    }

    /// The right channel's samples so far, oldest first.
    pub fn right(&self) -> (r: &[T])
        ensures
            r@ == self@.right,
    {
        self.right.as_slice()
    }
}

/// Weight of each of the 256 bins of a spectrum, in hundredths of a
/// decibel: how much louder or softer the ear takes a tone of that bin to be.
/// From bin 1 it rises to bin 66 and falls from there.
pub const WEIGHT: [i32; 256] = [
    0, -2045, -1443, -1092, -843, -650, -493, -361, -247, -147, -58, 22,
    95, 161, 222, 279, 331, 380, 426, 468, 509, 547, 583, 617,
    649, 680, 709, 737, 764, 789, 814, 837, 860, 881, 902, 922,
    941, 959, 977, 993, 1010, 1025, 1040, 1054, 1068, 1081, 1094, 1106,
    1117, 1127, 1138, 1147, 1156, 1164, 1172, 1179, 1185, 1191, 1197, 1201,
    1205, 1209, 1212, 1214, 1216, 1217, 1218, 1218, 1217, 1216, 1215, 1213,
    1210, 1207, 1204, 1200, 1195, 1191, 1185, 1179, 1173, 1167, 1160, 1152,
    1144, 1136, 1127, 1118, 1108, 1098, 1087, 1076, 1064, 1051, 1038, 1024,
    1010, 995, 979, 963, 945, 927, 908, 889, 868, 847, 825, 802,
    778, 754, 728, 702, 675, 648, 620, 591, 561, 531, 501, 470,
    438, 406, 374, 341, 309, 276, 242, 209, 175, 141, 108, 74,
    40, 6, -28, -62, -96, -129, -163, -197, -230, -263, -297, -330,
    -363, -395, -428, -460, -493, -525, -557, -588, -620, -651, -683, -713,
    -744, -775, -805, -835, -865, -895, -925, -954, -984, -1013, -1042, -1070,
    -1099, -1127, -1155, -1183, -1211, -1238, -1266, -1293, -1320, -1347, -1374, -1400,
    -1427, -1453, -1479, -1505, -1531, -1556, -1582, -1607, -1632, -1657, -1682, -1706,
    -1731, -1755, -1779, -1804, -1827, -1851, -1875, -1898, -1922, -1945, -1968, -1991,
    -2014, -2037, -2059, -2082, -2104, -2127, -2149, -2171, -2193, -2214, -2236, -2258,
    -2279, -2300, -2321, -2343, -2364, -2384, -2405, -2426, -2446, -2467, -2487, -2508,
    -2528, -2548, -2568, -2588, -2607, -2627, -2647, -2666, -2686, -2705, -2724, -2743,
    -2762, -2781, -2800, -2819, -2838, -2856, -2875, -2893, -2912, -2930, -2948, -2966,
    -2984, -3002, -3020, -3038,
];

} // verus!
