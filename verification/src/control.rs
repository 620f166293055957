//! The control loop's step: which capture window it works on, what the
//! lamps are told, and who is told.  The transform from a window to its
//! spectra is the caller's and is handed in as a function; the loop that
//! makes step after step without end is the caller's too.

use vstd::prelude::*;
use crate::audio::{
    seconds, ActiveAudioSource, AudioSourceOptions, InactiveAudioSource, StereoSample,
};
use crate::flat_stack::{process_s4fs, s4fs_of, BINS};
use crate::Error;

verus! {

/// How a band's level is turned into an intensity.
#[derive(Clone, Copy, Debug, PartialEq, Eq, Structural)]
pub enum Algorithm {
    Linear,
    Quadratic,
}

/// The visualisations on offer.
#[derive(Clone, Copy, Debug, PartialEq, Eq, Structural)]
pub enum Effect {
    /// Four bands per channel, stacked left and right of a fill lamp, with
    /// the response curve and whether the channels change sides.
    Stereo4FlatStack(Algorithm, bool),
}

/// One lamp's instruction.
#[derive(Clone, Copy, Debug, PartialEq, Eq, Structural)]
pub struct LedCommand {
    /// Place of the lamp in the row, 0 to 8.
    pub element: u8,
    /// The band the lamp shows, 1 to 4; 0 on the fill lamp.
    pub color: u8,
    /// Intensity of a band, 0 to 31, or what is left for the fill lamp.
    pub cmd: u8,
    /// The sender's clock at the moment of sending.
    pub time: u64,
}

/// Takes the row of commands to the lamps, over whatever link it has.
pub trait Sender {
    /// What a delivery of `msgs` may come to: success or the error.  Each
    /// kind of sender has its own answer; one that gives none leaves every
    /// outcome open.
    open spec fn sent(&self, msgs: Seq<LedCommand>, r: Result<(), Error>) -> bool {
        true
    }

    /// What the sender's clock may show.
    open spec fn shows(&self, time: u64) -> bool {
        true
    }

    /// Delivers one row.
    fn send(&mut self, msgs: &[LedCommand; 9]) -> (r: Result<(), Error>)
        ensures
            old(self).sent(msgs@, r),
    ;

    /// The sender's own clock, by which its receivers order the rows.
    fn get_time(&self) -> (time: u64)
        ensures
            self.shows(time),
    ;
}

/// The row that `effect` makes of the spectra of the two channels.
pub open spec fn rendered(effect: Effect, left: Seq<i32>, right: Seq<i32>) -> Seq<LedCommand> {
    match effect {
        Effect::Stereo4FlatStack(alg, invert) => s4fs_of(left, right, alg, invert),
    }
}

/// Runs `effect` on one capture window's spectra, given in hundredths of a
/// decibel.
pub fn render(effect: Effect, left: &[i32], right: &[i32]) -> (r: [LedCommand; 9])
    requires
        left@.len() >= BINS,
        right@.len() == left@.len(),
    ensures
        r@ == rendered(effect, left@, right@),
{
    match effect {
        Effect::Stereo4FlatStack(alg, invert) => process_s4fs(left, right, alg, invert),
    }
}

/// The row with `time` on every command and nothing else changed.
pub open spec fn stamped(msgs: Seq<LedCommand>, time: u64) -> Seq<LedCommand> {
    msgs.map_values(|m: LedCommand| LedCommand { time, ..m })
}

/// Puts a sender's time on all nine commands.
pub fn stamp(msgs: &[LedCommand; 9], time: u64) -> (r: [LedCommand; 9])
    ensures
        r@ == stamped(msgs@, time),
{
    let r = [
        LedCommand { time, ..msgs[0] },
        LedCommand { time, ..msgs[1] },
        LedCommand { time, ..msgs[2] },
        LedCommand { time, ..msgs[3] },
        LedCommand { time, ..msgs[4] },
        LedCommand { time, ..msgs[5] },
        LedCommand { time, ..msgs[6] },
        LedCommand { time, ..msgs[7] },
        LedCommand { time, ..msgs[8] },
    ];
    assert(r@ =~= stamped(msgs@, time));
    r
}

/// The window kept after one more look at the source: a window that was
/// waiting takes the place of the one kept so far; without one, what was
/// kept stays.
pub open spec fn newest<S>(latest: Option<S>, polled: Result<S, Error>) -> Option<S> {
    match polled {
        Ok(sample) => Some(sample),
        Err(_) => latest,
    }
}

/// What is kept after all of `polled`, the windows found waiting one after
/// another, oldest first.
pub open spec fn drained<S>(polled: Seq<S>) -> Option<S>
    decreases polled.len(),
{
    if polled.len() == 0 {
        None
    } else {
        newest(drained(polled.drop_last()), Ok(polled.last()))
    }
}

/// However many windows were waiting, one is kept, and it is the one that
/// arrived last; the look that finds nothing waiting changes nothing.
pub proof fn lemma_drain_keeps_newest<S>(polled: Seq<S>, failure: Error)
    ensures
        polled.len() == 0 ==> drained(polled) is None,
        polled.len() > 0 ==> drained(polled) == Some(polled.last()),
        newest(drained(polled), Err(failure)) == drained(polled),
{
}

/// Decides after one look at the source what is kept and whether to look
/// again: as long as windows were waiting, there may be a newer one.
pub fn keep_latest<S>(latest: Option<S>, polled: Result<S, Error>) -> (r: (Option<S>, bool))
    ensures
        r.0 == newest(latest, polled),
        r.1 == polled is Ok,
{
    match polled {
        Ok(sample) => (Some(sample), true),
        Err(_) => (latest, false),
    }
}

/// The window to analyse when `senders` senders are in the list: none, if
/// the row would reach no one.
pub open spec fn worth<S>(sample: S, senders: nat) -> Option<S> {
    if senders == 0 {
        None
    } else {
        Some(sample)
    }
}

/// What a step works on when nothing was kept and the wait for the next
/// window came to `outcome`: the window if it is worth analysing, or the
/// source's error.
pub open spec fn taken<S>(outcome: Result<S, Error>, senders: nat) -> Result<Option<S>, Error> {
    match outcome {
        Ok(sample) => Ok(worth(sample, senders)),
        Err(e) => Err(e),
    }
}

/// What a step works on after the looks at the source found `polled`
/// waiting, oldest first, with `senders` senders in the list.
pub open spec fn step_works_on<S>(polled: Seq<S>, senders: nat) -> Option<S> {
    match drained(polled) {
        Some(sample) => worth(sample, senders),
        None => None,
    }
}

/// A step that found windows waiting works on one window, the one that
/// arrived last, whatever came before it and however many there were; with
/// no sender in the list it works on none.
pub proof fn lemma_step_works_on_newest<S>(polled: Seq<S>, senders: nat)
    requires
        polled.len() >= 1,
    ensures
        senders > 0 ==> step_works_on(polled, senders) == Some(polled.last()),
        senders == 0 ==> step_works_on(polled, senders) is None,
        forall|earlier: Seq<S>| #[trigger]
            step_works_on(earlier.push(polled.last()), senders) == step_works_on(polled, senders),
{
    assert forall|earlier: Seq<S>| #[trigger]
        step_works_on(earlier.push(polled.last()), senders) == step_works_on(
            polled,
            senders,
        ) by {
        assert(earlier.push(polled.last()).last() == polled.last());
    }
}

/// The window to analyse, if the row would reach anyone: with no sender the
/// window is dropped unseen.
pub fn worth_analysing<S>(sample: S, senders: usize) -> (r: Option<S>)
    ensures
        r == worth(sample, senders as nat),
{
    if senders == 0 {
        None
    } else {
        Some(sample)
    }
}

/// What a visualizer holds, as mathematics sees it.
pub struct AudioVisualizerView<T: ActiveAudioSource> {
    /// The source that is driven.
    pub source: T,
    /// Who is told, in the order of telling.
    pub senders: Seq<Listed>,
    /// What the lamps show.
    pub effect: Effect,
    /// How much the caller wants to hear of the work.
    pub verbose: u8,
    /// The newest window found waiting in this step and not yet taken.
    pub pending: Option<StereoSample<T::Sample>>,
}

/// The source came from `before` to `after` by waits of no time of which
/// each found a window: `found`, oldest first.
pub open spec fn looked<T: ActiveAudioSource>(
    before: T,
    after: T,
    found: Seq<StereoSample<T::Sample>>,
) -> bool
    decreases found.len(),
{
    if found.len() == 0 {
        after == before
    } else {
        exists|mid: T|
            looked(before, mid, found.drop_last()) && #[trigger] mid.received_within(
                seconds(0),
                &after,
                Ok(found.last()),
            )
    }
}

/// What is kept after the windows `found` were found, when `kept` was kept
/// before: the last of them, or what was kept.
pub open spec fn kept_after<S>(kept: Option<S>, found: Seq<S>) -> Option<S> {
    if found.len() == 0 {
        kept
    } else {
        Some(found.last())
    }
}

/// A sender as the list holds it.
pub struct Listed {
    pub sender: Box<dyn Sender>,
}

/// A sender was told `row`: it showed a time, was handed the row stamped
/// with that time, and answered with `r`.
pub open spec fn told<S: Sender + ?Sized>(
    sender: &S,
    row: Seq<LedCommand>,
    r: Result<(), Error>,
) -> bool {
    exists|time: u64| #[trigger] sender.shows(time) && sender.sent(stamped(row, time), r)
}

/// The senders were told `row` in the order of the list.  The first `n` of
/// them took it; if one is left, the one behind them failed, `r` is its
/// error, and those behind it were not tried.
pub open spec fn dispatched(
    before: Seq<Listed>,
    after: Seq<Listed>,
    row: Seq<LedCommand>,
    n: int,
    r: Result<(), Error>,
) -> bool {
    &&& 0 <= n <= before.len() == after.len()
    &&& forall|j: int| 0 <= j < n ==> #[trigger] told(&*before[j].sender, row, Ok(()))
    &&& n < before.len() ==> r is Err && told(&*before[n].sender, row, r)
    &&& n == before.len() ==> r == Ok::<(), Error>(())
    &&& forall|j: int| n < j < before.len() ==> after[j] == #[trigger] before[j]
}

/// Drives an active source and a list of senders, one step at a time.
///
/// A step is [`process`](Self::process).  Its parts can be had one by one:
/// [`drain`](Self::drain) looks at the source, look by look with
/// [`poll`](Self::poll), until nothing more is waiting;
/// [`next_sample`](Self::next_sample) takes the window to work on; and
/// [`dispatch`](Self::dispatch) tells the senders the row for its spectra.
pub struct AudioVisualizer<T: ActiveAudioSource> {
    active: T,
    /// Who is told, in the order of telling.
    pub senders: Vec<Listed>,
    /// What the lamps show.
    pub effect: Effect,
    /// How much the caller wants to hear of the work; the steps are silent.
    pub verbose: u8,
    latest: Option<StereoSample<T::Sample>>,
}

impl<T: ActiveAudioSource> View for AudioVisualizer<T> {
    type V = AudioVisualizerView<T>;

    closed spec fn view(&self) -> AudioVisualizerView<T> {
        AudioVisualizerView {
            source: self.active,
            senders: self.senders@,
            effect: self.effect,
            verbose: self.verbose,
            pending: self.latest,
        }
    }
}

impl<T: ActiveAudioSource> AudioVisualizer<T> {
    /// What comes of starting a source: with the source running, a
    /// visualizer for it without senders; else the source's error.
    pub open spec fn started(activated: Result<T, Error>, effect: Effect, r: Result<Self, Error>) -> bool {
        match activated {
            Ok(active) => r matches Ok(av) && av@ == (AudioVisualizerView {
                source: active,
                senders: Seq::<Listed>::empty(),
                effect,
                verbose: 0,
                pending: None,
            }),
            Err(e) => r == Err::<Self, Error>(e),
        }
    }

    /// A visualizer for what became of starting a source: with the source
    /// running, one without senders; else the source's error.
    pub fn with_source(activated: Result<T, Error>, effect: Effect) -> (r: Result<Self, Error>)
        ensures
            Self::started(activated, effect, r),
    {
        match activated {
            Ok(active) => Ok(
                AudioVisualizer { active, effect, senders: Vec::new(), verbose: 0, latest: None },
            ),
            Err(e) => Err(e),
        }
    }

    /// Starts `inactive` and makes a visualizer for it: one without senders
    /// if the source starts, else the source's error.
    pub fn new<I>(inactive: I, effect: Effect, options: AudioSourceOptions) -> (r: Result<
        Self,
        Error,
    >) where I: InactiveAudioSource<ActiveType = T>
        ensures
            exists|activated: Result<T, Error>| #[trigger]
                inactive.activated(options, activated) && Self::started(activated, effect, r),
    {
        let activated = inactive.activate(options);
        let ghost seen = activated;
        let r = Self::with_source(activated, effect);
        assert(inactive.activated(options, seen) && Self::started(seen, effect, r));
        r
    }

    /// Looks once, without waiting, whether the source has a full window.
    /// If so it is kept in place of any found before, and `true` says to
    /// look again.
    pub fn poll(&mut self) -> (more: bool)
        ensures
            exists|polled: Result<StereoSample<T::Sample>, Error>| #[trigger]
                old(self)@.source.received_within(seconds(0), &final(self)@.source, polled)
                    && final(self)@.pending == newest(old(self)@.pending, polled) && more
                    == polled is Ok,
            final(self)@.senders == old(self)@.senders,
            final(self)@.effect == old(self)@.effect,
            final(self)@.verbose == old(self)@.verbose,
    {
        let polled = self.active.try_recv();
        let ghost seen = polled;
        let (latest, more) = keep_latest(self.latest.take(), polled);
        self.latest = latest;
        assert(old(self)@.source.received_within(seconds(0), &self@.source, seen) && self@.pending
            == newest(old(self)@.pending, seen) && more == seen is Ok);
        more
    }

    /// The visualizer has taken the window that a step works on, with `r`:
    /// the one that was kept, or, if none was, what a wait without end on
    /// the source gave; in either case only if it is worth analysing.
    pub open spec fn took(
        before: AudioVisualizerView<T>,
        after: AudioVisualizerView<T>,
        r: Result<Option<StereoSample<T::Sample>>, Error>,
    ) -> bool {
        &&& after.pending is None
        &&& after.senders == before.senders
        &&& after.effect == before.effect
        &&& after.verbose == before.verbose
        &&& match before.pending {
            Some(sample) => after.source == before.source && r == Ok::<
                Option<StereoSample<T::Sample>>,
                Error,
            >(worth(sample, before.senders.len())),
            None => exists|outcome: Result<StereoSample<T::Sample>, Error>| #[trigger]
                before.source.received(&after.source, outcome) && r == taken(
                    outcome,
                    before.senders.len(),
                ),
        }
    }

    /// Takes the window that this step works on: the newest found waiting,
    /// or, if none was, the next to arrive.  With no sender in the list the
    /// window is dropped and the step is over.
    pub fn next_sample(&mut self) -> (r: Result<Option<StereoSample<T::Sample>>, Error>)
        ensures
            Self::took(old(self)@, final(self)@, r),
    {
        match self.latest.take() {
            Some(sample) => Ok(worth_analysing(sample, self.senders.len())),
            None => {
                let outcome = self.active.recv();
                let ghost seen = outcome;
                let r = match outcome {
                    Ok(sample) => Ok(worth_analysing(sample, self.senders.len())),
                    Err(e) => Err(e),
                };
                assert(old(self)@.source.received(&self@.source, seen) && r == taken(
                    seen,
                    old(self)@.senders.len(),
                ));
                r
            },
        }
    }

    /// Puts one more sender at the end of the list.
    pub fn add_sender(&mut self, sender: Listed)
        ensures
            final(self)@.senders == old(self)@.senders.push(sender),
            final(self)@.source == old(self)@.source,
            final(self)@.effect == old(self)@.effect,
            final(self)@.verbose == old(self)@.verbose,
            final(self)@.pending == old(self)@.pending,
    {
        self.senders.push(sender);
    }

    /// Changes what the lamps show.
    pub fn set_effect(&mut self, effect: Effect)
        ensures
            final(self)@.effect == effect,
            final(self)@.source == old(self)@.source,
            final(self)@.senders == old(self)@.senders,
            final(self)@.verbose == old(self)@.verbose,
            final(self)@.pending == old(self)@.pending,
    {
        self.effect = effect;
    }

    /// Changes how much the caller wants to hear of the work.
    pub fn set_verbose(&mut self, verbose: u8)
        ensures
            final(self)@.verbose == verbose,
            final(self)@.source == old(self)@.source,
            final(self)@.senders == old(self)@.senders,
            final(self)@.effect == old(self)@.effect,
            final(self)@.pending == old(self)@.pending,
    {
        self.verbose = verbose;
    }

    /// How many senders are in the list.
    pub fn sender_count(&self) -> (r: usize)
        ensures
            r == self@.senders.len(),
    {
        self.senders.len()
    }

    /// What the lamps show.
    pub fn effect(&self) -> (r: Effect)
        ensures
            r == self@.effect,
    {
        self.effect
    }

    /// How much the caller wants to hear of the work.
    pub fn verbose(&self) -> (r: u8)
        ensures
            r == self@.verbose,
    {
        self.verbose
    }

    /// The visualizer has looked at its source until nothing more was
    /// waiting: the looks found `found`, the last of them is kept, and the
    /// look after them found nothing.  Only a source that never runs dry
    /// ends the looking otherwise, after as many windows as can be counted.
    pub open spec fn drained_to(
        before: AudioVisualizerView<T>,
        after: AudioVisualizerView<T>,
        found: Seq<StereoSample<T::Sample>>,
    ) -> bool {
        &&& found.len() <= usize::MAX
        &&& after.pending == kept_after(before.pending, found)
        &&& after.senders == before.senders
        &&& after.effect == before.effect
        &&& after.verbose == before.verbose
        &&& exists|mid: T| #[trigger]
            looked(before.source, mid, found) && (if found.len() == usize::MAX {
                after.source == mid
            } else {
                exists|e: Error| #[trigger]
                    mid.received_within(
                        seconds(0),
                        &after.source,
                        Err::<StereoSample<T::Sample>, Error>(e),
                    )
            })
    }

    /// However many windows were waiting, the step that drained them works
    /// on the one found last, if anyone is told, and on no other; the source
    /// is not asked again.
    pub proof fn lemma_work_is_newest_found(
        before: AudioVisualizerView<T>,
        drained: AudioVisualizerView<T>,
        at_work: AudioVisualizerView<T>,
        found: Seq<StereoSample<T::Sample>>,
        work: Result<Option<StereoSample<T::Sample>>, Error>,
    )
        requires
            found.len() >= 1,
            Self::drained_to(before, drained, found),
            Self::took(drained, at_work, work),
        ensures
            work == Ok::<Option<StereoSample<T::Sample>>, Error>(
                worth(found.last(), before.senders.len()),
            ),
            before.senders.len() > 0 ==> work == Ok::<Option<StereoSample<T::Sample>>, Error>(
                Some(found.last()),
            ),
            at_work.source == drained.source,
            at_work.senders == before.senders,
    {
    }

    /// Looks at the source, without waiting, until nothing more is waiting,
    /// and keeps the newest window found.
    pub fn drain(&mut self)
        ensures
            exists|found: Seq<StereoSample<T::Sample>>| #[trigger]
                Self::drained_to(old(self)@, final(self)@, found),
    {
        let ghost mut found = Seq::<StereoSample<T::Sample>>::empty();
        let ghost mut mid = self@.source;
        let mut looks: usize = 0;
        let mut more = true;
        while more && looks < usize::MAX
            invariant
                found.len() == looks,
                looked(old(self)@.source, mid, found),
                self@.pending == kept_after(old(self)@.pending, found),
                self@.senders == old(self)@.senders,
                self@.effect == old(self)@.effect,
                self@.verbose == old(self)@.verbose,
                more ==> self@.source == mid,
                !more ==> looks < usize::MAX && exists|e: Error| #[trigger]
                    mid.received_within(
                        seconds(0),
                        &self@.source,
                        Err::<StereoSample<T::Sample>, Error>(e),
                    ),
            decreases (usize::MAX - looks) + (if more { 1int } else { 0int }),
        {
            let ghost before = self@;
            more = self.poll();
            proof {
                let polled = choose|polled: Result<StereoSample<T::Sample>, Error>| #[trigger]
                    before.source.received_within(seconds(0), &self@.source, polled)
                        && self@.pending == newest(before.pending, polled) && more == polled is Ok;
                if more {
                    let window = polled->Ok_0;
                    let longer = found.push(window);
                    assert(longer.drop_last() == found);
                    assert(longer.last() == window);
                    assert(polled == Ok::<StereoSample<T::Sample>, Error>(window));
                    assert(looked(old(self)@.source, self@.source, longer));
                    found = longer;
                    mid = self@.source;
                } else {
                    let e = polled->Err_0;
                    assert(polled == Err::<StereoSample<T::Sample>, Error>(e));
                }
            }
            if more {
                looks += 1;
            }
        }
        assert(Self::drained_to(old(self)@, self@, found));
    }

    /// The visualizer has made the row for the spectra `left` and `right`
    /// and told its senders, with `r`; nothing else of it has changed.
    pub open spec fn rowed(
        before: AudioVisualizerView<T>,
        after: AudioVisualizerView<T>,
        left: Seq<i32>,
        right: Seq<i32>,
        r: Result<(), Error>,
    ) -> bool {
        &&& exists|n: int| #[trigger]
            dispatched(before.senders, after.senders, rendered(before.effect, left, right), n, r)
        &&& after.source == before.source
        &&& after.effect == before.effect
        &&& after.verbose == before.verbose
        &&& after.pending == before.pending
    }

    /// Makes the row for the window's spectra and hands it to each sender in
    /// the order of the list, stamped with that sender's time.  The first
    /// sender that fails ends the step with its error; those behind it are
    /// not tried.
    pub fn dispatch(&mut self, left: &[i32], right: &[i32]) -> (r: Result<(), Error>)
        requires
            left@.len() >= BINS,
            right@.len() == left@.len(),
        ensures
            Self::rowed(old(self)@, final(self)@, left@, right@, r),
    {
        let msgs = render(self.effect, left, right);
        let ghost row = rendered(self.effect, left@, right@);
        let n = self.senders.len();
        let mut i: usize = 0;
        while i < n
            invariant
                i <= n,
                n == self.senders@.len(),
                n == old(self).senders@.len(),
                msgs@ == row,
                row == rendered(old(self).effect, left@, right@),
                forall|j: int|
                    0 <= j < i ==> #[trigger] told(&*old(self).senders@[j].sender, row, Ok(())),
                forall|j: int| i <= j < n ==> self.senders@[j] == #[trigger] old(self).senders@[j],
                self.active == old(self).active,
                self.effect == old(self).effect,
                self.verbose == old(self).verbose,
                self.latest == old(self).latest,
            decreases n - i,
        {
            let ghost before = self.senders@;
            let cur_time = self.senders[i].sender.get_time();
            let stamped_row = stamp(&msgs, cur_time);
            let sent = self.senders[i].sender.send(&stamped_row);
            let ghost answer = sent;
            assert(before[i as int] == old(self).senders@[i as int]);
            assert(told(&*old(self).senders@[i as int].sender, row, answer)) by {
                assert(before[i as int].sender.shows(cur_time));
            }
            match sent {
                Ok(_) => {
                    assert(answer == Ok::<(), Error>(())) by {
                        assert(answer->Ok_0 == ());
                    }
                },
                Err(e) => {
                    let r = Err(e);
                    assert(dispatched(old(self)@.senders, self@.senders, row, i as int, r));
                    return r;
                },
            }
            i += 1;
        }
        assert(dispatched(old(self)@.senders, self@.senders, row, n as int, Ok::<(), Error>(())));
        Ok(())
    }

    /// One step has been made, with `r`: the source was looked at until
    /// nothing more was waiting; the window to work on was taken; and if
    /// there was one, `transform` gave its spectra and the senders were told
    /// the row for them.  A failing source or sender ends the step with its
    /// error.
    pub open spec fn stepped<F: Fn(&StereoSample<T::Sample>) -> (Vec<i32>, Vec<i32>)>(
        before: AudioVisualizerView<T>,
        after: AudioVisualizerView<T>,
        transform: F,
        r: Result<(), Error>,
    ) -> bool {
        exists|
            found: Seq<StereoSample<T::Sample>>,
            drained: AudioVisualizerView<T>,
            at_work: AudioVisualizerView<T>,
            work: Result<Option<StereoSample<T::Sample>>, Error>,
        |
            #![trigger Self::drained_to(before, drained, found), Self::took(drained, at_work, work)]
            Self::drained_to(before, drained, found) && Self::took(drained, at_work, work)
                && match work {
                Err(e) => after == at_work && r == Err::<(), Error>(e),
                Ok(None) => after == at_work && r == Ok::<(), Error>(()),
                Ok(Some(sample)) => exists|spectra: (Vec<i32>, Vec<i32>)| #[trigger]
                    call_ensures(transform, (&sample,), spectra) && Self::rowed(
                        at_work,
                        after,
                        spectra.0@,
                        spectra.1@,
                        r,
                    ),
            }
    }

    /// Makes one step: looks at the source until nothing more is waiting
    /// and works on the newest window found, or waits for the next if none
    /// was; has `transform` give the window's spectra, in hundredths of a
    /// decibel; and tells every sender the row for them.  With no sender in
    /// the list the window is dropped unseen.
    pub fn process<F>(&mut self, transform: F) -> (r: Result<(), Error>) where
        F: Fn(&StereoSample<T::Sample>) -> (Vec<i32>, Vec<i32>),

        requires
            forall|sample: &StereoSample<T::Sample>| #[trigger] call_requires(transform, (sample,)),
            forall|sample: &StereoSample<T::Sample>, spectra: (Vec<i32>, Vec<i32>)| #[trigger]
                call_ensures(transform, (sample,), spectra) ==> spectra.0@.len() >= BINS
                    && spectra.1@.len() == spectra.0@.len(),
        ensures
            Self::stepped(old(self)@, final(self)@, transform, r),
    {
        self.drain();
        let ghost drained = self@;
        let ghost found = choose|found: Seq<StereoSample<T::Sample>>| #[trigger]
            Self::drained_to(old(self)@, drained, found);
        let work = self.next_sample();
        let ghost at_work = self@;
        let ghost seen = work;
        let r = match work {
            Err(e) => Err(e),
            Ok(None) => Ok(()),
            Ok(Some(sample)) => {
                let spectra = transform(&sample);
                self.dispatch(spectra.0.as_slice(), spectra.1.as_slice())
            },
        };
        assert(Self::drained_to(old(self)@, drained, found) && Self::took(drained, at_work, seen));
        assert(Self::stepped(old(self)@, self@, transform, r));
        r
    }
}

} // verus!
