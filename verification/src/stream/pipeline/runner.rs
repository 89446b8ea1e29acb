//! Running a pipeline: bringing it to `Playing`, noticing that it is frozen and
//! ending it then, and what is done about the messages on its bus.
use vstd::prelude::*;

use crate::stream::peer_id::{id_text, PeerId};
use crate::stream::sink::branch::ElementState;
use crate::stream::types::{CaptureConfiguration, FrameInterval};
use vstd::relations::{sorted_by, total_ordering};

verus! {

pub const NS_PER_S: u64 = 1_000_000_000;

/// How many of the last frame durations are looked at.
pub const DELTA_CAPACITY: usize = 10;

/// How many are needed before they count.
pub const DELTAS_NEEDED: usize = 5;

/// How long a position may stand still before the pipeline counts as frozen:
/// ten frames, but a second at least; five seconds where the frame duration is
/// not known.
pub open spec fn adaptive_timeout(frame_duration_ns: Option<u64>) -> u128 {
    match frame_duration_ns {
        Some(duration) => if duration * 10 > NS_PER_S {
            (duration * 10) as u128
        } else {
            NS_PER_S as u128
        },
        None => 5_000_000_000u128,
    }
}

/// How often the position is looked at: twice per timeout, within 200 ms and a
/// second.
pub open spec fn tick_interval(timeout_ns: u128) -> u64 {
    if timeout_ns / 2 < 200_000_000 {
        200_000_000u64
    } else if timeout_ns / 2 > NS_PER_S {
        NS_PER_S
    } else {
        (timeout_ns / 2) as u64
    }
}

/// Whichever the frame duration, a pipeline is given a second at least, and is
/// looked at every half second to every second, at least twice before it counts
/// as frozen.
pub proof fn ticks_fit_the_timeout(frame_duration_ns: Option<u64>)
    ensures
        ({
            let timeout = adaptive_timeout(frame_duration_ns);
            let tick = tick_interval(timeout);
            &&& timeout >= NS_PER_S
            &&& 500_000_000 <= tick <= NS_PER_S
            &&& 2 * tick <= timeout
        }),
{
}

/// Longer frames never shorten the time that a pipeline is given, nor the time
/// between two looks at it.
pub proof fn longer_frames_are_given_longer(shorter: u64, longer: u64)
    requires
        shorter <= longer,
    ensures
        adaptive_timeout(Some(shorter)) <= adaptive_timeout(Some(longer)),
        tick_interval(adaptive_timeout(Some(shorter))) <= tick_interval(
            adaptive_timeout(Some(longer)),
        ),
{
}

/// The frame duration to begin with, until frames were seen: `quotient_ns`, or one
/// second where the interval is not a proper fraction. `quotient_ns` is the
/// denominator divided by the numerator, in nanoseconds; for intervals below a
/// second that is longer than a frame.
pub fn initial_frame_duration(interval: FrameInterval, quotient_ns: u64) -> (r: u64)
    ensures
        r == (if interval.denominator > 0 && interval.numerator > 0 {
            quotient_ns
        } else {
            NS_PER_S
        }),
{
    if interval.denominator > 0 && interval.numerator > 0 {
        quotient_ns
    } else {
        NS_PER_S
    }
}

spec fn ascending() -> spec_fn(u64, u64) -> bool {
    |a: u64, b: u64| a <= b
}

/// `t` holds the numbers of `s`, in ascending order.
pub open spec fn is_sorting(t: Seq<u64>, s: Seq<u64>) -> bool {
    &&& t.to_multiset() == s.to_multiset()
    &&& forall|i: int, j: int| 0 <= i < j < t.len() ==> #[trigger] t[i] <= #[trigger] t[j]
}

/// The number in the middle, or halfway between the two in the middle.
pub open spec fn middle(t: Seq<u64>) -> u64 {
    let n = t.len() as int;
    if n % 2 == 0 {
        ((t[n / 2 - 1] + t[n / 2]) / 2) as u64
    } else {
        t[n / 2]
    }
}

/// The median of the numbers: the middle of them in ascending order.
pub open spec fn median(s: Seq<u64>) -> u64 {
    middle(choose|t: Seq<u64>| is_sorting(t, s))
}

/// There is only one way to put numbers in order.
proof fn sorting_is_unique(t: Seq<u64>, u: Seq<u64>, s: Seq<u64>)
    requires
        is_sorting(t, s),
        is_sorting(u, s),
    ensures
        t == u,
{
    let leq = ascending();
    assert(total_ordering(leq));
    assert(sorted_by(t, leq));
    assert(sorted_by(u, leq));
    vstd::seq_lib::lemma_sorted_unique(t, u, leq);
}

/// The median is the middle of the numbers however they were put in order, and
/// lies between any bounds that all of them keep.
pub proof fn median_lies_within(s: Seq<u64>, t: Seq<u64>, low: u64, high: u64)
    requires
        s.len() > 0,
        is_sorting(t, s),
        forall|i: int| 0 <= i < s.len() ==> low <= #[trigger] s[i] <= high,
    ensures
        median(s) == middle(t),
        low <= median(s) <= high,
{
    let u = choose|u: Seq<u64>| is_sorting(u, s);
    sorting_is_unique(t, u, s);
    vstd::seq_lib::to_multiset_len(t);
    vstd::seq_lib::to_multiset_len(s);
    let n = t.len() as int;
    sorted_member(t, s, n / 2);
    if n % 2 == 0 {
        sorted_member(t, s, n / 2 - 1);
    }
}

proof fn sorted_member(t: Seq<u64>, s: Seq<u64>, i: int)
    requires
        is_sorting(t, s),
        0 <= i < t.len(),
    ensures
        s.contains(t[i]),
{
    broadcast use vstd::seq_lib::group_to_multiset_ensures;

    assert(t.contains(t[i]));
    assert(t.to_multiset().contains(t[i]));
}

fn sort(numbers: &Vec<u64>) -> (r: Vec<u64>)
    ensures
        is_sorting(r@, numbers@),
        r@.len() == numbers@.len(),
{
    broadcast use vstd::seq_lib::group_to_multiset_ensures;

    let mut r: Vec<u64> = Vec::new();
    let mut i: usize = 0;
    assert(numbers@.take(0) =~= Seq::<u64>::empty());
    while i < numbers.len()
        invariant
            i <= numbers.len(),
            r.len() == i,
            is_sorting(r@, numbers@.take(i as int)),
        decreases numbers.len() - i,
    {
        let x: u64 = numbers[i];
        let ghost before = r@;
        let mut p: usize = r.len();
        while p > 0 && r[p - 1] > x
            invariant
                p <= r.len(),
                r@ == before,
                forall|j: int| p <= j < r.len() ==> r[j] > x,
            decreases p,
        {
            p -= 1;
        }
        r.insert(p, x);
        proof {
            assert(numbers@.take(i + 1) =~= numbers@.take(i as int).push(x));
            vstd::seq_lib::to_multiset_insert(before, p as int, x);
            vstd::seq_lib::to_multiset_insert(numbers@.take(i as int), i as int, x);
            assert(numbers@.take(i as int).push(x) =~= numbers@.take(i as int).insert(
                i as int,
                x,
            ));
            assert forall|a: int, b: int| 0 <= a < b < r.len() implies #[trigger] r@[a]
                <= #[trigger] r@[b] by {
                let low = if a < p {
                    before[a]
                } else if a == p {
                    x
                } else {
                    before[a - 1]
                };
                let high = if b < p {
                    before[b]
                } else if b == p {
                    x
                } else {
                    before[b - 1]
                };
                assert(r@[a] == low && r@[b] == high);
                if p > 0 {
                    assert(before[p - 1] <= x);
                }
            }
        }
        i += 1;
    }
    assert(numbers@.take(i as int) =~= numbers@);
    r
}

/// The median of frame durations; none has none.
pub fn calculate_median_frame_duration(frame_deltas: &Vec<u64>) -> (r: Option<u64>)
    ensures
        r == (if frame_deltas@.len() == 0 {
            None
        } else {
            Some(median(frame_deltas@))
        }),
{
    let n: usize = frame_deltas.len();
    if n == 0 {
        return None;
    }
    let sorted = sort(frame_deltas);
    proof {
        let u = choose|u: Seq<u64>| is_sorting(u, frame_deltas@);
        sorting_is_unique(sorted@, u, frame_deltas@);
    }
    if n % 2 == 0 {
        let a: u128 = sorted[n / 2 - 1] as u128;
        let b: u128 = sorted[n / 2] as u128;
        Some(((a + b) / 2) as u64)
    } else {
        Some(sorted[n / 2])
    }
}

/// What a look at the position brought to light.
#[derive(Clone, Copy, Debug, PartialEq, Eq, Structural)]
pub enum TickReport {
    Quiet,
    /// The first position that is not zero.
    Started,
    /// The pipeline has just been found frozen.
    Frozen { elapsed_ns: u64 },
    /// It still is; said every five seconds.
    StillFrozen { elapsed_ns: u64 },
    /// It moves again.
    Recovered { frozen_ns: u64 },
}

/// The position could not be found out.
#[derive(Clone, Copy, Debug, PartialEq, Eq, Structural)]
pub struct NoPosition;

/// What is remembered of a running pipeline. Times and positions are in
/// nanoseconds.
pub struct PipelineRunnerContext {
    pub last_known_position: Option<u64>,
    pub last_position_change: Option<u64>,
    pub freeze_reported: bool,
    pub last_heartbeat: Option<u64>,
    pub pipeline_started: bool,
    pub frame_deltas: Vec<u64>,
    pub frame_duration: Option<u64>,
    pub timeout: u128,
    pub tick: u64,
}

/// What a [`PipelineRunnerContext`] stands for.
#[verifier::ext_equal]
pub struct ContextView {
    pub last_known_position: Option<u64>,
    pub last_position_change: Option<u64>,
    pub freeze_reported: bool,
    pub last_heartbeat: Option<u64>,
    pub pipeline_started: bool,
    pub frame_deltas: Seq<u64>,
    pub frame_duration: Option<u64>,
    pub timeout: u128,
    pub tick: u64,
}

impl View for PipelineRunnerContext {
    type V = ContextView;

    open spec fn view(&self) -> ContextView {
        ContextView {
            last_known_position: self.last_known_position,
            last_position_change: self.last_position_change,
            freeze_reported: self.freeze_reported,
            last_heartbeat: self.last_heartbeat,
            pipeline_started: self.pipeline_started,
            frame_deltas: self.frame_deltas@,
            frame_duration: self.frame_duration,
            timeout: self.timeout,
            tick: self.tick,
        }
    }
}

/// How much time has passed; none where the clock went back.
pub open spec fn passed(since: u64, now: u64) -> u64 {
    if now >= since {
        (now - since) as u64
    } else {
        0
    }
}

/// A difference between positions that can be a frame duration: above a
/// millisecond, below ten seconds.
pub open spec fn is_plausible(delta: int) -> bool {
    1_000_000 < delta < 10_000_000_000
}

pub open spec fn distance(a: u64, b: u64) -> int {
    if a > b {
        a - b
    } else {
        b - a
    }
}

impl ContextView {
    /// The invariant: at most ten frame durations are remembered, all of them
    /// plausible, and the limits follow from the frame duration.
    pub open spec fn wf(self) -> bool {
        &&& self.frame_deltas.len() <= DELTA_CAPACITY
        &&& forall|i: int|
            0 <= i < self.frame_deltas.len() ==> is_plausible(#[trigger] self.frame_deltas[i] as int)
        &&& self.timeout == adaptive_timeout(self.frame_duration)
        &&& self.tick == tick_interval(self.timeout)
    }

    /// Nothing changed at `now`.
    pub open spec fn frozen(self, now: u64) -> (ContextView, TickReport) {
        match self.last_position_change {
            None => (self, TickReport::Quiet),
            Some(last_change) => {
                let elapsed = passed(last_change, now);
                if elapsed < self.timeout {
                    (self, TickReport::Quiet)
                } else if !self.freeze_reported {
                    (
                        ContextView { freeze_reported: true, last_heartbeat: Some(0), ..self },
                        TickReport::Frozen { elapsed_ns: elapsed },
                    )
                } else {
                    match self.last_heartbeat {
                        Some(heartbeat) if elapsed / NS_PER_S >= heartbeat / NS_PER_S + 5 => (
                            ContextView { last_heartbeat: Some(elapsed), ..self },
                            TickReport::StillFrozen { elapsed_ns: elapsed },
                        ),
                        _ => (self, TickReport::Quiet),
                    }
                }
            },
        }
    }

    /// One more frame duration is known; the oldest is forgotten where there
    /// are too many.
    pub open spec fn observed(self, delta: u64) -> ContextView {
        let deltas = self.frame_deltas.push(delta);
        ContextView {
            frame_deltas: if deltas.len() > DELTA_CAPACITY {
                deltas.skip(1)
            } else {
                deltas
            },
            ..self
        }
    }

    /// The frame duration is taken from the median where that is off by more
    /// than a tenth.
    pub open spec fn adapted(self) -> (ContextView, bool) {
        let new = median(self.frame_deltas);
        let current = match self.frame_duration {
            Some(duration) => duration,
            None => 0,
        };
        if self.frame_deltas.len() >= DELTAS_NEEDED && (distance(new, current) > current / 10
            || self.frame_duration is None) {
            (
                ContextView {
                    frame_duration: Some(new),
                    timeout: adaptive_timeout(Some(new)),
                    tick: tick_interval(adaptive_timeout(Some(new))),
                    ..self
                },
                true,
            )
        } else {
            (self, false)
        }
    }

    /// The position went from `previous` to `current`.
    pub open spec fn moved(self, now: u64, previous: u64, current: u64) -> (
        ContextView,
        TickReport,
        bool,
    ) {
        let (learned, adapted) = if previous != 0 && current > previous && is_plausible(
            current - previous,
        ) {
            self.observed((current - previous) as u64).adapted()
        } else {
            (self, false)
        };
        let standing = ContextView {
            last_known_position: Some(current),
            last_position_change: Some(now),
            ..learned
        };
        match self.last_position_change {
            Some(last_change) if self.freeze_reported => (
                ContextView { freeze_reported: false, last_heartbeat: None, ..standing },
                TickReport::Recovered { frozen_ns: passed(last_change, now) },
                adapted,
            ),
            _ => (standing, TickReport::Quiet, adapted),
        }
    }

    /// A look at the position at `now`. The last part says whether the limits
    /// were adapted.
    pub open spec fn ticked(self, position: u64, now: u64) -> (ContextView, TickReport, bool) {
        let baseline = ContextView {
            last_known_position: Some(position),
            last_position_change: Some(now),
            ..self
        };
        if position == 0 {
            (
                ContextView { last_known_position: Some(position), ..self },
                TickReport::Quiet,
                false,
            )
        } else if !self.pipeline_started {
            (
                ContextView { pipeline_started: true, ..baseline },
                TickReport::Started,
                false,
            )
        } else {
            match self.last_known_position {
                None => (baseline, TickReport::Quiet, false),
                Some(previous) => if previous == 0 {
                    (baseline, TickReport::Quiet, false)
                } else if previous == position {
                    let (after, report) = self.frozen(now);
                    (after, report, false)
                } else {
                    self.moved(now, previous, position)
                },
            }
        }
    }
}

impl PipelineRunnerContext {
    pub fn new(initial_frame_duration: Option<u64>) -> (r: PipelineRunnerContext)
        ensures
            r@.wf(),
            r@ == (ContextView {
                last_known_position: None,
                last_position_change: None,
                freeze_reported: false,
                last_heartbeat: None,
                pipeline_started: false,
                frame_deltas: Seq::empty(),
                frame_duration: initial_frame_duration,
                timeout: adaptive_timeout(initial_frame_duration),
                tick: tick_interval(adaptive_timeout(initial_frame_duration)),
            }),
    {
        let timeout: u128 = PipelineRunner::calculate_adaptive_timeout(initial_frame_duration);
        let tick: u64 = PipelineRunner::calculate_tick_interval(timeout);
        PipelineRunnerContext {
            last_known_position: None,
            last_position_change: None,
            freeze_reported: false,
            last_heartbeat: None,
            pipeline_started: false,
            frame_deltas: Vec::new(),
            frame_duration: initial_frame_duration,
            timeout,
            tick,
        }
    }

    /// Takes in that the position has not changed at `now`.
    pub fn handle_frozen_pipeline(&mut self, now: u64) -> (r: TickReport)
        ensures
            (final(self)@, r) == old(self)@.frozen(now),
            old(self)@.wf() ==> final(self)@.wf(),
    {
        if let Some(last_change) = self.last_position_change {
            let elapsed: u64 = now.saturating_sub(last_change);
            if elapsed as u128 >= self.timeout {
                if !self.freeze_reported {
                    self.freeze_reported = true;
                    self.last_heartbeat = Some(0);
                    return TickReport::Frozen { elapsed_ns: elapsed };
                }
                if let Some(heartbeat) = self.last_heartbeat {
                    if elapsed / NS_PER_S >= heartbeat / NS_PER_S + 5 {
                        self.last_heartbeat = Some(elapsed);
                        return TickReport::StillFrozen { elapsed_ns: elapsed };
                    }
                }
            }
        }
        TickReport::Quiet
    }

    fn adapt(&mut self) -> (r: bool)
        ensures
            (final(self)@, r) == old(self)@.adapted(),
    {
        if self.frame_deltas.len() < DELTAS_NEEDED {
            return false;
        }
        let new: u64 = match calculate_median_frame_duration(&self.frame_deltas) {
            Some(median) => median,
            None => {
                return false;
            },
        };
        let current: u64 = match self.frame_duration {
            Some(duration) => duration,
            None => 0,
        };
        let difference: u64 = if new > current {
            new - current
        } else {
            current - new
        };
        if difference > current / 10 || self.frame_duration.is_none() {
            self.frame_duration = Some(new);
            self.timeout = PipelineRunner::calculate_adaptive_timeout(self.frame_duration);
            self.tick = PipelineRunner::calculate_tick_interval(self.timeout);
            return true;
        }
        false
    }

    fn observe(&mut self, delta: u64)
        requires
            old(self)@.frame_deltas.len() <= DELTA_CAPACITY,
        ensures
            final(self)@ == old(self)@.observed(delta),
    {
        self.frame_deltas.push(delta);
        if self.frame_deltas.len() > DELTA_CAPACITY {
            let ghost before = self.frame_deltas@;
            self.frame_deltas.remove(0);
            assert(self.frame_deltas@ =~= before.skip(1));
        }
    }

    /// Takes in that the position went from `previous` to `current` at `now`. The
    /// second part of the result says whether the limits were adapted.
    pub fn handle_moving_pipeline(&mut self, now: u64, previous: u64, current: u64) -> (r: (
        TickReport,
        bool,
    ))
        requires
            old(self)@.wf(),
        ensures
            final(self)@.wf(),
            (final(self)@, r.0, r.1) == old(self)@.moved(now, previous, current),
    {
        let mut adapted = false;
        if previous != 0 && current > previous {
            let delta: u64 = current - previous;
            if delta > 1_000_000 && delta < 10_000_000_000 {
                self.observe(delta);
                adapted = self.adapt();
            }
        }
        let mut report = TickReport::Quiet;
        if self.freeze_reported {
            if let Some(last_change) = self.last_position_change {
                report = TickReport::Recovered { frozen_ns: now.saturating_sub(last_change) };
                self.freeze_reported = false;
                self.last_heartbeat = None;
            }
        }
        self.last_known_position = Some(current);
        self.last_position_change = Some(now);
        (report, adapted)
    }

    /// Takes in a look at the position, made at `now`; where the position could
    /// not be found out, the pipeline is given up. The second part of the
    /// result says whether the limits were adapted.
    pub fn handle_pipeline_tick(&mut self, position: Option<u64>, now: u64) -> (r: Result<
        (TickReport, bool),
        NoPosition,
    >)
        requires
            old(self)@.wf(),
        ensures
            final(self)@.wf(),
            r is Err <==> position is None,
            r is Err ==> final(self)@ == old(self)@,
            r matches Ok((report, adapted)) ==> (final(self)@, report, adapted) == old(
                self,
            )@.ticked(position->0, now),
    {
        let position: u64 = match position {
            Some(position) => position,
            None => {
                return Err(NoPosition);
            },
        };
        if position == 0 {
            self.last_known_position = Some(position);
            return Ok((TickReport::Quiet, false));
        }
        if !self.pipeline_started {
            self.pipeline_started = true;
            self.last_known_position = Some(position);
            self.last_position_change = Some(now);
            return Ok((TickReport::Started, false));
        }
        let previous: u64 = match self.last_known_position {
            None => 0,
            Some(previous) => previous,
        };
        if previous == 0 {
            self.last_known_position = Some(position);
            self.last_position_change = Some(now);
            return Ok((TickReport::Quiet, false));
        }
        proof {
            ticking_keeps_the_invariant(self@, position, now);
        }
        if previous == position {
            let report = self.handle_frozen_pipeline(now);
            Ok((report, false))
        } else {
            Ok(self.handle_moving_pipeline(now, previous, position))
        }
    }
}

/// Whatever position is found, the limits keep following from the frame
/// duration, and no more than ten plausible frame durations are remembered.
pub proof fn ticking_keeps_the_invariant(context: ContextView, position: u64, now: u64)
    requires
        context.wf(),
    ensures
        context.ticked(position, now).0.wf(),
{
}

/// A difference between positions is remembered, if it can be a frame duration.
/// The frame duration becomes the median of what is remembered when something new
/// was, there is enough of it, and none was known or the known one is off by more
/// than a tenth; in every other case it stays, and the limits with it. The limits
/// follow from the frame duration throughout.
pub proof fn limits_follow_the_median(context: ContextView, now: u64, previous: u64, current: u64)
    requires
        context.timeout == adaptive_timeout(context.frame_duration),
        context.tick == tick_interval(context.timeout),
    ensures
        ({
            let (after, _, adapted) = context.moved(now, previous, current);
            let recorded = previous != 0 && current > previous && is_plausible(current - previous);
            let m = median(after.frame_deltas);
            let due = recorded && after.frame_deltas.len() >= DELTAS_NEEDED && (
            match context.frame_duration {
                Some(known) => distance(m, known) > known / 10,
                None => true,
            });
            &&& after.timeout == adaptive_timeout(after.frame_duration)
            &&& after.tick == tick_interval(after.timeout)
            &&& after.frame_deltas == (if recorded {
                context.observed((current - previous) as u64).frame_deltas
            } else {
                context.frame_deltas
            })
            &&& adapted == due
            &&& due ==> after.frame_duration == Some(m)
            &&& !due ==> after.frame_duration == context.frame_duration && after.timeout
                == context.timeout && after.tick == context.tick
        }),
{
}

/// A pipeline is reported frozen only when it has been seen at one position for
/// the whole timeout, and not again until it has moved.
pub proof fn freezes_are_reported_once(context: ContextView, position: u64, now: u64)
    requires
        context.ticked(position, now).1 is Frozen,
    ensures
        !context.freeze_reported,
        context.last_known_position == Some(position),
        passed(context.last_position_change->0, now) >= context.timeout,
        context.ticked(position, now).0.freeze_reported,
        forall|later: u64|
            !(#[trigger] context.ticked(position, now).0.ticked(position, later).1 is Frozen),
{
}

/// Where running a pipeline stands.
#[derive(Clone, Copy, Debug, PartialEq, Eq, Structural)]
pub enum RunnerPhase {
    /// Waiting to be started.
    Waiting,
    /// The pipeline is being set to `Playing`.
    SettingPlaying,
    /// `Playing` was asked for and is waited for.
    AwaitingPlaying,
    Running,
    Ended(RunnerEnd),
}

/// Why a runner ended.
#[derive(Clone, Copy, Debug, PartialEq, Eq, Structural)]
pub enum RunnerEnd {
    /// The bus brought the end of the stream or an error.
    Finished,
    /// Nobody is left who could start it.
    StartChannelClosed,
    /// The pipeline is gone.
    PipelineGone,
    /// The pipeline did not reach `Playing` in time.
    NotPlaying,
    /// What is captured is not known yet.
    NotInitialized,
    /// The position could not be found out.
    NoPosition,
    /// The position stood still for too long, as it does where a device was lost
    /// and nobody else has noticed.
    Frozen,
}

/// What a look at the position means for the runner.
#[derive(Clone, Copy, Debug, PartialEq, Eq, Structural)]
pub enum Look {
    Moving,
    Frozen,
    NoPosition,
}

/// What came of a look at the position, judged.
pub open spec fn look_of(tick: Result<(TickReport, bool), NoPosition>) -> Look {
    match tick {
        Err(_) => Look::NoPosition,
        Ok((TickReport::Frozen { .. }, _)) | Ok((TickReport::StillFrozen { .. }, _)) => Look::Frozen,
        Ok(_) => Look::Moving,
    }
}

/// Judges what came of a look at the position.
pub fn judge_look(tick: &Result<(TickReport, bool), NoPosition>) -> (r: Look)
    ensures
        r == look_of(*tick),
{
    match tick {
        Err(_) => Look::NoPosition,
        Ok((TickReport::Frozen { .. }, _)) | Ok((TickReport::StillFrozen { .. }, _)) => Look::Frozen,
        Ok(_) => Look::Moving,
    }
}

/// What a runner is told.
#[derive(Clone, Copy, Debug, PartialEq, Eq, Structural)]
pub enum RunnerEvent {
    Finished,
    /// The start command came; `None` where the pipeline is gone.
    Start(Option<ElementState>),
    StartChannelClosed,
    PlayingSet(bool),
    PlayingReached(bool),
    /// A look at the position was due. A pipeline that may stand still is taken
    /// to move.
    Ticked(Look),
}

/// Runs one pipeline.
pub struct PipelineRunner {
    pub phase: RunnerPhase,
    /// A pipeline that may stand still is not looked at.
    pub allow_block: bool,
    /// What is captured is known.
    pub initialized: bool,
}

impl PipelineRunner {
    pub open spec fn next(self, event: RunnerEvent) -> RunnerPhase {
        match (self.phase, event) {
            (RunnerPhase::Waiting, RunnerEvent::Finished) => RunnerPhase::Ended(
                RunnerEnd::Finished,
            ),
            (RunnerPhase::Running, RunnerEvent::Finished) => RunnerPhase::Ended(
                RunnerEnd::Finished,
            ),
            (RunnerPhase::Waiting, RunnerEvent::StartChannelClosed) => RunnerPhase::Ended(
                RunnerEnd::StartChannelClosed,
            ),
            (RunnerPhase::Waiting, RunnerEvent::Start(None)) => RunnerPhase::Ended(
                RunnerEnd::PipelineGone,
            ),
            (RunnerPhase::Waiting, RunnerEvent::Start(Some(state))) => if state
                == ElementState::Playing {
                RunnerPhase::AwaitingPlaying
            } else {
                RunnerPhase::SettingPlaying
            },
            (RunnerPhase::SettingPlaying, RunnerEvent::PlayingSet(ok)) => if ok {
                RunnerPhase::AwaitingPlaying
            } else {
                RunnerPhase::Waiting
            },
            (RunnerPhase::AwaitingPlaying, RunnerEvent::PlayingReached(ok)) => if !ok {
                RunnerPhase::Ended(RunnerEnd::NotPlaying)
            } else if !self.initialized {
                RunnerPhase::Ended(RunnerEnd::NotInitialized)
            } else {
                RunnerPhase::Running
            },
            (RunnerPhase::Running, RunnerEvent::Ticked(look)) => if self.allow_block {
                RunnerPhase::Running
            } else {
                match look {
                    Look::Moving => RunnerPhase::Running,
                    Look::Frozen => RunnerPhase::Ended(RunnerEnd::Frozen),
                    Look::NoPosition => RunnerPhase::Ended(RunnerEnd::NoPosition),
                }
            },
            _ => self.phase,
        }
    }

    /// How long a position may stand still before the pipeline counts as frozen.
    pub fn calculate_adaptive_timeout(frame_duration_ns: Option<u64>) -> (r: u128)
        ensures
            r == adaptive_timeout(frame_duration_ns),
    {
        match frame_duration_ns {
            Some(duration) => {
                let ten: u128 = duration as u128 * 10;
                if ten > NS_PER_S as u128 {
                    ten
                } else {
                    NS_PER_S as u128
                }
            },
            None => 5_000_000_000,
        }
    }

    /// How often the position is looked at.
    pub fn calculate_tick_interval(timeout_ns: u128) -> (r: u64)
        ensures
            r == tick_interval(timeout_ns),
    {
        let half: u128 = timeout_ns / 2;
        if half < 200_000_000 {
            200_000_000
        } else if half > NS_PER_S as u128 {
            NS_PER_S
        } else {
            half as u64
        }
    }

    /// A runner that waits to be started.
    pub fn try_new(allow_block: bool, configuration: &CaptureConfiguration) -> (r: PipelineRunner)
        ensures
            r.phase == RunnerPhase::Waiting,
            r.allow_block == allow_block,
            r.initialized == (configuration@ is Video),
    {
        let initialized = match configuration {
            CaptureConfiguration::VIDEO(_) => true,
            CaptureConfiguration::REDIRECT(_) => false,
        };
        PipelineRunner { phase: RunnerPhase::Waiting, allow_block, initialized }
    }

    /// Starts the runner: what it does depends on the state the pipeline is in,
    /// if there still is one.
    pub fn start(&mut self, pipeline_state: Option<ElementState>)
        ensures
            final(self).phase == old(self).next(RunnerEvent::Start(pipeline_state)),
            final(self).allow_block == old(self).allow_block,
            final(self).initialized == old(self).initialized,
    {
        self.advance(RunnerEvent::Start(pipeline_state));
    }

    /// Takes an event in; one that does not belong to the phase changes nothing.
    pub fn advance(&mut self, event: RunnerEvent)
        ensures
            final(self).phase == old(self).next(event),
            final(self).allow_block == old(self).allow_block,
            final(self).initialized == old(self).initialized,
    {
        self.phase = match (self.phase, event) {
            (RunnerPhase::Waiting, RunnerEvent::Finished) => RunnerPhase::Ended(
                RunnerEnd::Finished,
            ),
            (RunnerPhase::Running, RunnerEvent::Finished) => RunnerPhase::Ended(
                RunnerEnd::Finished,
            ),
            (RunnerPhase::Waiting, RunnerEvent::StartChannelClosed) => RunnerPhase::Ended(
                RunnerEnd::StartChannelClosed,
            ),
            (RunnerPhase::Waiting, RunnerEvent::Start(None)) => RunnerPhase::Ended(
                RunnerEnd::PipelineGone,
            ),
            (RunnerPhase::Waiting, RunnerEvent::Start(Some(state))) => {
                if state == ElementState::Playing {
                    RunnerPhase::AwaitingPlaying
                } else {
                    RunnerPhase::SettingPlaying
                }
            },
            (RunnerPhase::SettingPlaying, RunnerEvent::PlayingSet(ok)) => {
                if ok {
                    RunnerPhase::AwaitingPlaying
                } else {
                    RunnerPhase::Waiting
                }
            },
            (RunnerPhase::AwaitingPlaying, RunnerEvent::PlayingReached(ok)) => {
                if !ok {
                    RunnerPhase::Ended(RunnerEnd::NotPlaying)
                } else if !self.initialized {
                    RunnerPhase::Ended(RunnerEnd::NotInitialized)
                } else {
                    RunnerPhase::Running
                }
            },
            (RunnerPhase::Running, RunnerEvent::Ticked(look)) => {
                if self.allow_block {
                    RunnerPhase::Running
                } else {
                    match look {
                        Look::Moving => RunnerPhase::Running,
                        Look::Frozen => RunnerPhase::Ended(RunnerEnd::Frozen),
                        Look::NoPosition => RunnerPhase::Ended(RunnerEnd::NoPosition),
                    }
                }
            },
            (phase, _) => phase,
        };
    }

    /// Whether the runner has not ended.
    pub fn is_running(&self) -> (r: bool)
        ensures
            r == !(self.phase is Ended),
    {
        match self.phase {
            RunnerPhase::Ended(_) => false,
            _ => true,
        }
    }
}

/// A runner that has ended stays ended, and one only runs a pipeline that has
/// reached `Playing` and whose video is known.
pub proof fn runners_end_once(runner: PipelineRunner, event: RunnerEvent)
    ensures
        runner.phase is Ended ==> runner.next(event) == runner.phase,
        runner.next(event) == RunnerPhase::Running && runner.phase != RunnerPhase::Running
            ==> runner.phase == RunnerPhase::AwaitingPlaying && event
            == RunnerEvent::PlayingReached(true) && runner.initialized,
{
}

impl ContextView {
    /// The pipeline is at `position` since `since`, and was not found frozen there.
    pub open spec fn stands_at(self, position: u64, since: u64) -> bool {
        &&& position != 0
        &&& self.pipeline_started
        &&& self.last_known_position == Some(position)
        &&& self.last_position_change == Some(since)
        &&& !self.freeze_reported
    }
}

/// Where a runner stands after looks at the position, each with the time at which
/// it was taken.
pub open spec fn phase_after(
    runner: PipelineRunner,
    context: ContextView,
    looks: Seq<(u64, u64)>,
) -> RunnerPhase
    decreases looks.len(),
{
    if looks.len() == 0 {
        runner.phase
    } else {
        let (after, report, adapted) = context.ticked(looks[0].0, looks[0].1);
        let look = look_of(Ok((report, adapted)));
        phase_after(
            PipelineRunner { phase: runner.next(RunnerEvent::Ticked(look)), ..runner },
            after,
            looks.skip(1),
        )
    }
}

proof fn ended_runners_are_not_moved(
    runner: PipelineRunner,
    context: ContextView,
    looks: Seq<(u64, u64)>,
)
    requires
        runner.phase is Ended,
    ensures
        phase_after(runner, context, looks) == runner.phase,
    decreases looks.len(),
{
    if looks.len() > 0 {
        ended_runners_are_not_moved(
            runner,
            context.ticked(looks[0].0, looks[0].1).0,
            looks.skip(1),
        );
    }
}

/// A pipeline that must not stand still is ended once it was found at one position
/// for the whole timeout, however often it was looked at before and is looked at
/// after. It then counts as not running.
pub proof fn frozen_pipelines_end(
    runner: PipelineRunner,
    context: ContextView,
    position: u64,
    since: u64,
    looks: Seq<(u64, u64)>,
    k: int,
)
    requires
        runner.phase == RunnerPhase::Running,
        !runner.allow_block,
        context.stands_at(position, since),
        forall|i: int| 0 <= i < looks.len() ==> (#[trigger] looks[i]).0 == position,
        0 <= k < looks.len(),
        passed(since, looks[k].1) >= context.timeout,
    ensures
        phase_after(runner, context, looks) == RunnerPhase::Ended(RunnerEnd::Frozen),
    decreases looks.len(),
{
    let (after, report, adapted) = context.ticked(looks[0].0, looks[0].1);
    let look = look_of(Ok((report, adapted)));
    let next = PipelineRunner { phase: runner.next(RunnerEvent::Ticked(look)), ..runner };
    if passed(since, looks[0].1) >= context.timeout {
        ended_runners_are_not_moved(next, after, looks.skip(1));
    } else {
        assert(next == runner);
        assert(after == context);
        assert forall|i: int| 0 <= i < looks.skip(1).len() implies (#[trigger] looks.skip(
            1,
        )[i]).0 == position by {
            assert(looks[i + 1].0 == position);
        }
        frozen_pipelines_end(runner, context, position, since, looks.skip(1), k - 1);
    }
}

/// A look at the position ends a pipeline as frozen only where it must not stand
/// still and has been at that position for the whole timeout. One that runs on was
/// not found frozen.
pub proof fn only_frozen_pipelines_are_ended(
    runner: PipelineRunner,
    context: ContextView,
    position: u64,
    now: u64,
)
    requires
        runner.phase == RunnerPhase::Running,
        !runner.allow_block,
        !context.freeze_reported,
    ensures
        ({
            let (after, report, adapted) = context.ticked(position, now);
            let next = runner.next(RunnerEvent::Ticked(look_of(Ok((report, adapted)))));
            if next == RunnerPhase::Running {
                !after.freeze_reported
            } else {
                &&& next == RunnerPhase::Ended(RunnerEnd::Frozen)
                &&& context.last_position_change is Some
                &&& context.stands_at(position, context.last_position_change->0)
                &&& passed(context.last_position_change->0, now) >= context.timeout
            }
        }),
{
}

/// A pipeline that may stand still is not ended by any look at it.
pub proof fn blocked_pipelines_are_let_be(
    runner: PipelineRunner,
    context: ContextView,
    looks: Seq<(u64, u64)>,
)
    requires
        runner.phase == RunnerPhase::Running,
        runner.allow_block,
    ensures
        phase_after(runner, context, looks) == RunnerPhase::Running,
    decreases looks.len(),
{
    if looks.len() > 0 {
        let (after, report, adapted) = context.ticked(looks[0].0, looks[0].1);
        blocked_pipelines_are_let_be(runner, after, looks.skip(1));
    }
}

/// The messages that are told apart on the bus of a pipeline.
#[derive(Clone, Copy, Debug, PartialEq, Eq, Structural)]
pub enum BusMessage {
    Eos,
    Error,
    StateChanged { from: ElementState, to: ElementState },
    Latency,
    Other,
}

/// What is done about a message.
#[derive(Clone, Copy, Debug, PartialEq, Eq, Structural)]
pub enum BusAction {
    /// Tell the runner that it is over, and listen no more.
    Finish,
    RecalculateLatency,
    Nothing,
}

/// The end of the stream and errors end the runner, latency is computed anew,
/// the rest is only noted.
pub fn on_bus_message(message: BusMessage) -> (r: BusAction)
    ensures
        r == (match message {
            BusMessage::Eos | BusMessage::Error => BusAction::Finish,
            BusMessage::Latency => BusAction::RecalculateLatency,
            _ => BusAction::Nothing,
        }),
{
    match message {
        BusMessage::Eos | BusMessage::Error => BusAction::Finish,
        BusMessage::Latency => BusAction::RecalculateLatency,
        _ => BusAction::Nothing,
    }
}

impl ElementState {
    pub open spec fn name_text(self) -> Seq<char> {
        match self {
            ElementState::Null => "Null"@,
            ElementState::Ready => "Ready"@,
            ElementState::Paused => "Paused"@,
            ElementState::Playing => "Playing"@,
        }
    }

    pub fn name(&self) -> (r: &'static str)
        ensures
            r@ == self.name_text(),
    {
        match self {
            ElementState::Null => "Null",
            ElementState::Ready => "Ready",
            ElementState::Paused => "Paused",
            ElementState::Playing => "Playing",
        }
    }
}

/// The name under which the graph of a pipeline is dumped on a message.
pub open spec fn dump_text(pipeline_id: PeerId, message: BusMessage) -> Option<Seq<char>> {
    let front = "pipeline-"@ + id_text(pipeline_id.value);
    match message {
        BusMessage::Eos => Some(front + "-eos"@),
        BusMessage::Error => Some(front + "-error"@),
        BusMessage::StateChanged { from, to } => Some(
            front + "-"@ + from.name_text() + "-to-"@ + to.name_text(),
        ),
        _ => None,
    }
}

/// The name under which the graph of a pipeline is dumped on a message, if it
/// is.
pub fn dump_name(pipeline_id: PeerId, message: BusMessage) -> (r: Option<String>)
    ensures
        match r {
            Some(name) => dump_text(pipeline_id, message) == Some(name@),
            None => dump_text(pipeline_id, message) is None,
        },
{
    let mut name = "pipeline-".to_owned();
    name.append(pipeline_id.text().as_str());
    match message {
        BusMessage::Eos => {
            name.append("-eos");
            Some(name)
        },
        BusMessage::Error => {
            name.append("-error");
            Some(name)
        },
        BusMessage::StateChanged { from, to } => {
            name.append("-");
            name.append(from.name());
            name.append("-to-");
            name.append(to.name());
            Some(name)
        },
        _ => None,
    }
}

/// Who receives what is posted on a bus.
#[derive(Clone, Copy, Debug, PartialEq, Eq, Structural)]
pub enum BusHandler {
    /// Nobody yet: messages queue up.
    Unset,
    /// The runner.
    Forward,
    /// Nobody any more: messages are dropped.
    Drop,
}

/// The bus of a pipeline and who looks after it.
#[derive(Clone, Copy, Debug, PartialEq, Eq, Structural)]
pub struct BusControl {
    pub handler: BusHandler,
    /// Messages that nobody has received.
    pub queued: u64,
}

impl BusControl {
    pub fn new() -> (r: BusControl)
        ensures
            r == (BusControl { handler: BusHandler::Unset, queued: 0 }),
    {
        BusControl { handler: BusHandler::Unset, queued: 0 }
    }

    /// The runner gets to run for the first time: from then on it receives the
    /// messages, unless it was stopped before.
    pub fn poll(&mut self)
        ensures
            *final(self) == old(self).polled(),
    {
        if self.handler == BusHandler::Unset {
            self.handler = BusHandler::Forward;
        }
    }

    pub open spec fn polled(self) -> BusControl {
        if self.handler == BusHandler::Unset {
            BusControl { handler: BusHandler::Forward, ..self }
        } else {
            self
        }
    }

    /// The runner is stopped: messages that are queued are drained, and those
    /// to come are dropped. How many were drained is returned.
    pub fn stop(&mut self) -> (r: u64)
        ensures
            *final(self) == (BusControl { handler: BusHandler::Drop, queued: 0 }),
            r == old(self).queued,
    {
        let drained: u64 = self.queued;
        self.handler = BusHandler::Drop;
        self.queued = 0;
        drained
    }

    /// The bus after a message was posted on it.
    pub open spec fn posted(self) -> BusControl {
        if self.handler == BusHandler::Unset && self.queued < u64::MAX {
            BusControl { queued: (self.queued + 1) as u64, ..self }
        } else {
            self
        }
    }

    /// A message is posted.
    pub fn post(&mut self)
        ensures
            *final(self) == old(self).posted(),
    {
        if self.handler == BusHandler::Unset && self.queued < u64::MAX {
            self.queued = self.queued + 1;
        }
    }
}

/// Once a runner is stopped nothing queues up on its bus, whether or not it ever
/// ran: a late first run does not take the messages over.
pub proof fn stopped_buses_stay_empty(bus: BusControl)
    requires
        bus == (BusControl { handler: BusHandler::Drop, queued: 0 }),
    ensures
        bus.posted() == bus,
        bus.polled() == bus,
{
}

/// The end of the stream or an error on the bus ends every runner that waits to be
/// started or runs, and a runner ends for no other reason than these: nobody can
/// start it, its pipeline is gone, does not play or has no known video, or it must
/// not stand still and does, or its position cannot be found out.
pub proof fn runners_end_for_a_reason(runner: PipelineRunner, event: RunnerEvent)
    requires
        !(runner.phase is Ended),
    ensures
        ({
            let next = runner.next(event);
            let waiting = runner.phase == RunnerPhase::Waiting;
            let running = runner.phase == RunnerPhase::Running;
            let awaiting = runner.phase == RunnerPhase::AwaitingPlaying;
            &&& next == RunnerPhase::Ended(RunnerEnd::Finished) <==> (waiting || running) && event
                == RunnerEvent::Finished
            &&& next == RunnerPhase::Ended(RunnerEnd::StartChannelClosed) <==> waiting && event
                == RunnerEvent::StartChannelClosed
            &&& next == RunnerPhase::Ended(RunnerEnd::PipelineGone) <==> waiting && event
                == RunnerEvent::Start(None)
            &&& next == RunnerPhase::Ended(RunnerEnd::NotPlaying) <==> awaiting && event
                == RunnerEvent::PlayingReached(false)
            &&& next == RunnerPhase::Ended(RunnerEnd::NotInitialized) <==> awaiting && event
                == RunnerEvent::PlayingReached(true) && !runner.initialized
            &&& next == RunnerPhase::Ended(RunnerEnd::NoPosition) <==> running
                && !runner.allow_block && event == RunnerEvent::Ticked(Look::NoPosition)
            &&& next == RunnerPhase::Ended(RunnerEnd::Frozen) <==> running && !runner.allow_block
                && event == RunnerEvent::Ticked(Look::Frozen)
        }),
{
}

/// A runner moves on only when told to: a started pipeline that does not play yet is
/// set to play, one that was set to play or plays is waited for, one that could not
/// be set to play is started again later, and one that plays and whose video is
/// known runs. Nothing else moves it, but for what ends it.
pub proof fn runners_come_up_step_by_step(runner: PipelineRunner, event: RunnerEvent)
    requires
        !(runner.phase is Ended),
    ensures
        ({
            let next = runner.next(event);
            let waiting = runner.phase == RunnerPhase::Waiting;
            let setting = runner.phase == RunnerPhase::SettingPlaying;
            let awaiting = runner.phase == RunnerPhase::AwaitingPlaying;
            let running = runner.phase == RunnerPhase::Running;
            let starts = waiting && event is Start && event->Start_0 is Some;
            let plays = event->Start_0 == Some(ElementState::Playing);
            &&& next == RunnerPhase::SettingPlaying && !setting <==> starts && !plays
            &&& next == RunnerPhase::AwaitingPlaying && !awaiting <==> (starts && plays) || (setting
                && event == RunnerEvent::PlayingSet(true))
            &&& next == RunnerPhase::Waiting && !waiting <==> setting && event
                == RunnerEvent::PlayingSet(false)
            &&& next == RunnerPhase::Running && !running <==> awaiting && event
                == RunnerEvent::PlayingReached(true) && runner.initialized
        }),
{
}

/// Told of the end of the stream or of an error twice, or of anything after it, a
/// runner stays as the first time ended it.
pub proof fn what_ended_a_runner_stays(runner: PipelineRunner, event: RunnerEvent)
    requires
        runner.phase == RunnerPhase::Waiting || runner.phase == RunnerPhase::Running,
    ensures
        ({
            let ended = PipelineRunner { phase: runner.next(RunnerEvent::Finished), ..runner };
            &&& ended.phase == RunnerPhase::Ended(RunnerEnd::Finished)
            &&& ended.next(event) == RunnerPhase::Ended(RunnerEnd::Finished)
        }),
{
}

/// A pipeline is given ten frames, but a second at least, and five seconds where its
/// frames are not known; it is looked at twice in that time, at least every second
/// and no more often than every 200 ms.
pub proof fn limits_are_these(frame_duration_ns: Option<u64>, timeout_ns: u128)
    ensures
        ({
            let t = adaptive_timeout(frame_duration_ns);
            &&& frame_duration_ns is None ==> t == 5_000_000_000
            &&& frame_duration_ns matches Some(d) ==> t >= 1_000_000_000 && t >= 10 * d && (t
                == 1_000_000_000 || t == 10 * d)
        }),
        ({
            let tick = tick_interval(timeout_ns);
            &&& 200_000_000 <= tick <= 1_000_000_000
            &&& tick < 1_000_000_000 ==> timeout_ns < 2 * (tick + 1)
            &&& tick > 200_000_000 ==> 2 * tick <= timeout_ns
        }),
{
}

/// The median of numbers in ascending order is the one in the middle; of an even
/// number of them it lies halfway between the two in the middle.
pub proof fn medians_are_in_the_middle(s: Seq<u64>, t: Seq<u64>)
    requires
        s.len() > 0,
        t.to_multiset() == s.to_multiset(),
        forall|i: int, j: int| 0 <= i < j < t.len() ==> #[trigger] t[i] <= #[trigger] t[j],
    ensures
        t.len() == s.len(),
        s.len() % 2 == 1 ==> median(s) == t[(s.len() - 1) / 2],
        s.len() % 2 == 0 ==> 2 * median(s) <= t[s.len() / 2 - 1] + t[(s.len() / 2) as int] <= 2
            * median(s) + 1,
{
    assert(is_sorting(t, s));
    let u = choose|u: Seq<u64>| is_sorting(u, s);
    sorting_is_unique(t, u, s);
    vstd::seq_lib::to_multiset_len(t);
    vstd::seq_lib::to_multiset_len(s);
}

/// What is said after a look: the first position that is not zero is the start; a
/// pipeline found where it was before, for the whole timeout, is frozen, and said to
/// be again every five seconds; one that was found frozen and has moved has
/// recovered. In every other case there is nothing to say.
pub proof fn looks_are_reported_as_they_are(context: ContextView, position: u64, now: u64)
    requires
        position != 0,
    ensures
        ({
            let report = context.ticked(position, now).1;
            let previous = context.last_known_position;
            let since = context.last_position_change;
            let stood = context.pipeline_started && previous == Some(position) && since is Some;
            let moved = context.pipeline_started && previous is Some && previous->0 != 0
                && previous->0 != position;
            let time = if now >= since->0 {
                now - since->0
            } else {
                0
            };
            &&& report == TickReport::Started <==> !context.pipeline_started
            &&& report is Frozen <==> stood && !context.freeze_reported && time >= context.timeout
            &&& report is Frozen ==> report->Frozen_elapsed_ns == time
            &&& report is StillFrozen <==> stood && context.freeze_reported && time
                >= context.timeout && context.last_heartbeat is Some && time / 1_000_000_000
                >= context.last_heartbeat->0 / 1_000_000_000 + 5
            &&& report is StillFrozen ==> report->StillFrozen_elapsed_ns == time
            &&& report is Recovered <==> moved && context.freeze_reported && since is Some
            &&& report is Recovered ==> report->frozen_ns == time
        }),
        context.ticked(0, now).1 == TickReport::Quiet,
{
}

/// What a look leaves in memory: the position; since when it is that, unless it was
/// before; that the pipeline has started; and whether it stands frozen.
pub proof fn looks_are_remembered(context: ContextView, position: u64, now: u64)
    ensures
        ({
            let (after, report, _) = context.ticked(position, now);
            let stays = context.pipeline_started && context.last_known_position == Some(position);
            &&& after.last_known_position == Some(position)
            &&& after.pipeline_started == (context.pipeline_started || position != 0)
            &&& after.last_position_change == (if position == 0 || stays {
                context.last_position_change
            } else {
                Some(now)
            })
            &&& after.freeze_reported == ((context.freeze_reported || report is Frozen) && !(
            report is Recovered))
            &&& after.last_heartbeat == (match report {
                TickReport::Frozen { .. } => Some(0),
                TickReport::StillFrozen { elapsed_ns } => Some(elapsed_ns),
                TickReport::Recovered { .. } => None,
                _ => context.last_heartbeat,
            })
        }),
{
}

/// A look that finds the position further on by more than a millisecond and less
/// than ten seconds leaves that difference as the last of the frame durations, behind
/// as many of those before as make ten; any other look leaves them as they were.
pub proof fn frame_durations_are_the_last_ten(context: ContextView, position: u64, now: u64)
    requires
        context.frame_deltas.len() <= 10,
    ensures
        ({
            let before = context.frame_deltas;
            let after = context.ticked(position, now).0.frame_deltas;
            let previous = context.last_known_position->0;
            let seen = context.pipeline_started && context.last_known_position is Some && previous
                != 0 && 1_000_000 < position - previous < 10_000_000_000;
            if seen {
                &&& after.len() == if before.len() < 10 {
                    before.len() + 1
                } else {
                    10
                }
                &&& after.last() == position - previous
                &&& after.drop_last() == before.skip(before.len() + 1 - after.len())
            } else {
                after == before
            }
        }),
{
    let before = context.frame_deltas;
    let after = context.ticked(position, now).0.frame_deltas;
    let previous = context.last_known_position->0;
    if context.pipeline_started && context.last_known_position is Some && previous != 0
        && 1_000_000 < position - previous < 10_000_000_000 {
        let delta = (position - previous) as u64;
        assert(after == context.observed(delta).frame_deltas);
        assert(after.drop_last() =~= before.skip(before.len() + 1 - after.len()));
    }
}

/// A look changes the frame duration only where it brought a new difference and five
/// are known: to their median, where no duration was known or the known one is off
/// by more than a tenth of it. The limits follow then, and stay otherwise.
pub proof fn durations_follow_what_was_seen(context: ContextView, position: u64, now: u64)
    requires
        context.wf(),
    ensures
        ({
            let (after, _, adapted) = context.ticked(position, now);
            let previous = context.last_known_position->0;
            let seen = context.pipeline_started && context.last_known_position is Some && previous
                != 0 && 1_000_000 < position - previous < 10_000_000_000;
            let m = median(after.frame_deltas);
            let off = match context.frame_duration {
                Some(known) => m - known > known / 10 || known - m > known / 10,
                None => true,
            };
            &&& adapted == (seen && after.frame_deltas.len() >= 5 && off)
            &&& adapted ==> after.frame_duration == Some(m) && after.timeout == adaptive_timeout(
                Some(m),
            ) && after.tick == tick_interval(after.timeout)
            &&& !adapted ==> after.frame_duration == context.frame_duration && after.timeout
                == context.timeout && after.tick == context.tick
        }),
{
}

/// A look counts as frozen where the pipeline was found or still is frozen, as
/// without a position where that could not be found out, and as moving otherwise.
pub proof fn looks_are_judged_by_their_report(tick: Result<(TickReport, bool), NoPosition>)
    ensures
        look_of(tick) == Look::NoPosition <==> tick is Err,
        look_of(tick) == Look::Frozen <==> tick is Ok && (tick->Ok_0.0 is Frozen
            || tick->Ok_0.0 is StillFrozen),
        look_of(tick) == Look::Moving <==> tick is Ok && (tick->Ok_0.0 is Quiet
            || tick->Ok_0.0 is Started || tick->Ok_0.0 is Recovered),
{
}

/// The first run of a runner makes it the receiver of what is posted, and loses
/// nothing that queued up before; messages queue up one by one until then, and not
/// after.
pub proof fn buses_queue_until_they_are_looked_after(bus: BusControl)
    ensures
        bus.handler == BusHandler::Unset ==> bus.polled().handler == BusHandler::Forward,
        bus.handler != BusHandler::Unset ==> bus.polled().handler == bus.handler,
        bus.polled().queued == bus.queued,
        bus.polled().posted() == bus.polled(),
        bus.posted().handler == bus.handler,
        bus.handler == BusHandler::Unset && bus.queued < u64::MAX ==> bus.posted().queued
            == bus.queued + 1,
        bus.handler != BusHandler::Unset || bus.queued == u64::MAX ==> bus.posted().queued
            == bus.queued,
{
}

/// Graphs are dumped at the end of the stream, at errors and at changes of state,
/// under a name that begins with the pipeline and its identity and ends with what
/// happened.
pub proof fn dumps_are_named_after_what_happened(pipeline_id: PeerId, message: BusMessage)
    ensures
        ({
            let name = dump_text(pipeline_id, message);
            let front = "pipeline-"@ + id_text(pipeline_id.value);
            &&& name is None <==> message is Latency || message is Other
            &&& message is Eos ==> name == Some(front + "-eos"@)
            &&& message is Error ==> name == Some(front + "-error"@)
            &&& message matches BusMessage::StateChanged { from, to } ==> name == Some(
                front + "-"@ + from.name_text() + "-to-"@ + to.name_text(),
            )
        }),
        ElementState::Null.name_text() == "Null"@,
        ElementState::Ready.name_text() == "Ready"@,
        ElementState::Paused.name_text() == "Paused"@,
        ElementState::Playing.name_text() == "Playing"@,
{
}

/// What a runner remembers is what its context holds.
pub proof fn contexts_are_what_they_hold(context: PipelineRunnerContext)
    ensures
        context@.last_known_position == context.last_known_position,
        context@.last_position_change == context.last_position_change,
        context@.freeze_reported == context.freeze_reported,
        context@.last_heartbeat == context.last_heartbeat,
        context@.pipeline_started == context.pipeline_started,
        context@.frame_deltas == context.frame_deltas@,
        context@.frame_duration == context.frame_duration,
        context@.timeout == context.timeout,
        context@.tick == context.tick,
{
}

} // verus!
