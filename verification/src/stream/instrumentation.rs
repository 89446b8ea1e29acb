//! Always-on measurements of a pipeline: frames that the capture device seems
//! to have dropped, and how full the queues are, once a second.
use vstd::prelude::*;

use crate::stream::debug_env::{b1_queue_limits, b1_queue_sizing, Environment};
use crate::stream::element::{ElementSpec, ElementView, PropertyValueView};
use crate::text::same_text;

verus! {

/// A jump between the time stamps of two buffers above this, in nanoseconds,
/// counts as missing frames.
pub const GAP_THRESHOLD_NS: u64 = 50_000_000;

/// The frame duration that gaps are divided by, about 30 frames per second.
pub const ASSUMED_FRAME_NS: u64 = 33_333_333;

/// What has passed a `v4l2src` source pad so far. The totals wrap around.
#[derive(Clone, Copy, Debug, PartialEq, Eq, Structural)]
pub struct DropCounter {
    pub buffers: u64,
    pub drops: u64,
    /// Time stamp of the last stamped buffer; `u64::MAX` before the first one.
    pub last_pts_ns: u64,
}

/// How many frames seem to be missing between two time stamps: none up to the
/// threshold, at least one above it.
pub open spec fn missed_frames(previous: u64, pts_ns: u64) -> nat {
    if previous == u64::MAX || pts_ns <= previous || pts_ns - previous <= GAP_THRESHOLD_NS {
        0
    } else {
        let frames = (pts_ns - previous) / ASSUMED_FRAME_NS as int;
        if frames <= 2 {
            1
        } else {
            (frames - 1) as nat
        }
    }
}

/// `a + b`, wrapped around at 2^64.
pub open spec fn wrapped_sum(a: u64, b: int) -> u64 {
    ((a + b) % 0x1_0000_0000_0000_0000) as u64
}

impl DropCounter {
    pub fn new() -> (r: DropCounter)
        ensures
            r == (DropCounter { buffers: 0, drops: 0, last_pts_ns: u64::MAX }),
    {
        DropCounter { buffers: 0, drops: 0, last_pts_ns: u64::MAX }
    }

    /// The counter after a time stamp was seen.
    pub open spec fn stamped(self, pts_ns: u64) -> DropCounter {
        DropCounter {
            buffers: self.buffers,
            drops: wrapped_sum(self.drops, missed_frames(self.last_pts_ns, pts_ns) as int),
            last_pts_ns: pts_ns,
        }
    }

    pub open spec fn stamped_if(self, pts_ns: Option<u64>) -> DropCounter {
        match pts_ns {
            Some(pts) => self.stamped(pts),
            None => self,
        }
    }

    pub open spec fn counted(self, n: u64) -> DropCounter {
        DropCounter { buffers: wrapped_sum(self.buffers, n as int), ..self }
    }

    /// Notes a time stamp, and the frames missing before it.
    pub fn record_pts(&mut self, pts_ns: u64)
        ensures
            *final(self) == old(self).stamped(pts_ns),
    {
        let previous: u64 = self.last_pts_ns;
        self.last_pts_ns = pts_ns;
        if previous == u64::MAX || pts_ns <= previous {
            return;
        }
        let gap: u64 = pts_ns - previous;
        if gap > GAP_THRESHOLD_NS {
            let frames: u64 = gap / ASSUMED_FRAME_NS;
            let missed: u64 = if frames <= 2 {
                1
            } else {
                frames - 1
            };
            self.drops = self.drops.wrapping_add(missed);
        }
    }

    /// Notes one buffer.
    pub fn record_buffer(&mut self, pts_ns: Option<u64>)
        ensures
            *final(self) == old(self).stamped_if(pts_ns).counted(1),
    {
        if let Some(pts) = pts_ns {
            self.record_pts(pts);
        }
        self.buffers = self.buffers.wrapping_add(1);
    }

    /// Notes a list of buffers by the time stamp of its last one; an empty list
    /// has none.
    pub fn record_buffer_list(&mut self, len: u64, last_pts_ns: Option<u64>)
        ensures
            *final(self) == old(self).stamped_if(last_pts_ns).counted(len),
    {
        if let Some(pts) = last_pts_ns {
            self.record_pts(pts);
        }
        self.buffers = self.buffers.wrapping_add(len);
    }
}

/// The totals at the last sample.
#[derive(Clone, Copy, Debug, PartialEq, Eq, Structural)]
pub struct DropWindow {
    pub last_buffers: u64,
    pub last_drops: u64,
}

/// What is reported of one second.
#[derive(Clone, Copy, Debug, PartialEq, Eq, Structural)]
pub struct DropSample {
    pub buffers_1s: u64,
    pub drops_1s: u64,
    pub buffers_total: u64,
    pub drops_total: u64,
}

/// `a - b`, wrapped around at 2^64.
pub open spec fn wrapped_difference(a: u64, b: u64) -> u64 {
    if a >= b {
        (a - b) as u64
    } else {
        (a - b + 0x1_0000_0000_0000_0000) as u64
    }
}

impl DropWindow {
    pub fn new() -> (r: DropWindow)
        ensures
            r == (DropWindow { last_buffers: 0, last_drops: 0 }),
    {
        DropWindow { last_buffers: 0, last_drops: 0 }
    }

    /// Closes the window: what was added since the last sample, and the totals.
    pub fn sample(&mut self, counter: &DropCounter) -> (r: DropSample)
        ensures
            r == (DropSample {
                buffers_1s: wrapped_difference(counter.buffers, old(self).last_buffers),
                drops_1s: wrapped_difference(counter.drops, old(self).last_drops),
                buffers_total: counter.buffers,
                drops_total: counter.drops,
            }),
            *final(self) == (DropWindow {
                last_buffers: counter.buffers,
                last_drops: counter.drops,
            }),
    {
        let r = DropSample {
            buffers_1s: counter.buffers.wrapping_sub(self.last_buffers),
            drops_1s: counter.drops.wrapping_sub(self.last_drops),
            buffers_total: counter.buffers,
            drops_total: counter.drops,
        };
        self.last_buffers = counter.buffers;
        self.last_drops = counter.drops;
        r
    }
}

/// No window loses what another counted: the total before a window and what the
/// window reports add up to the total after it.
pub proof fn windows_add_up(before: u64, after: u64)
    ensures
        wrapped_sum(before, wrapped_difference(after, before) as int) == after,
{
}

/// The frames counted as missing never outlast the gap they were derived from,
/// steady video at the assumed rate or faster counts none, and every gap above the
/// threshold counts one at least.
pub proof fn missed_frames_fit_the_gap(previous: u64, pts_ns: u64)
    ensures
        previous < pts_ns ==> missed_frames(previous, pts_ns) * ASSUMED_FRAME_NS <= pts_ns
            - previous,
        pts_ns - previous <= GAP_THRESHOLD_NS ==> missed_frames(previous, pts_ns) == 0,
        previous != u64::MAX && pts_ns - previous > GAP_THRESHOLD_NS ==> missed_frames(
            previous,
            pts_ns,
        ) >= 1,
{
    if previous < pts_ns && pts_ns - previous > GAP_THRESHOLD_NS {
        let gap = pts_ns - previous;
        let q = gap / ASSUMED_FRAME_NS as int;
        assert(q * 33_333_333 <= gap);
    }
}

/// What is measured on an element, by the factory that made it.
#[derive(Clone, Copy, Debug, PartialEq, Eq, Structural)]
pub enum Probe {
    /// Frame drops, on the source pad.
    Drops,
    /// How full the queue is.
    QueueLevel,
    /// The statistics of an RTP session, where it has some.
    RtpSession,
    /// Where an ICE sink sends to.
    NiceSink,
    Nothing,
}

pub open spec fn probe_for(factory: Seq<char>) -> Probe {
    if factory == "v4l2src"@ {
        Probe::Drops
    } else if factory == "queue"@ || factory == "queue2"@ {
        Probe::QueueLevel
    } else if factory == "rtpsession"@ {
        Probe::RtpSession
    } else if factory == "nicesink"@ {
        Probe::NiceSink
    } else {
        Probe::Nothing
    }
}

/// Picks what is measured on an element made by `factory`; an element without a
/// factory has the empty name.
pub fn probe_of(factory: &str) -> (r: Probe)
    ensures
        r == probe_for(factory@),
{
    if same_text(factory, "v4l2src") {
        Probe::Drops
    } else if same_text(factory, "queue") || same_text(factory, "queue2") {
        Probe::QueueLevel
    } else if same_text(factory, "rtpsession") {
        Probe::RtpSession
    } else if same_text(factory, "nicesink") {
        Probe::NiceSink
    } else {
        Probe::Nothing
    }
}

pub open spec fn b1_queue_view(name: Seq<char>, env: Environment) -> ElementView {
    ElementView::of("queue"@).named(name).text("leaky"@, "downstream"@).boolean(
        "silent"@,
        true,
    ).boolean("flush-on-eos"@, true).uint32("max-size-buffers"@, b1_queue_limits(env).0).uint32("max-size-bytes"@, 0u32).uint64("max-size-time"@, b1_queue_limits(env).1)
}

/// Describes an extra queue called `name`: leaky downstream, bounded in buffers
/// and in time, not in bytes, silent, and flushed at the end of the stream.
pub fn make_b1_queue(name: &str, env: &Environment) -> (r: ElementSpec)
    ensures
        r@ == b1_queue_view(name@, *env),
{
    let (max_buffers, max_time_ns, leaky) = b1_queue_sizing(env);
    ElementSpec::of("queue").named(name).text("leaky", leaky).boolean("silent", true).boolean(
        "flush-on-eos",
        true,
    ).uint32("max-size-buffers", max_buffers).uint32("max-size-bytes", 0).uint64("max-size-time", max_time_ns)
}

/// A gap between two stamps counts frames of a thirtieth of a second each, less the
/// one that came, and one at least, where it is above 50 ms; a smaller gap, stamps
/// that go back, and the first stamp count none.
pub proof fn missing_frames_are_counted(previous: u64, pts_ns: u64)
    ensures
        ({
            let gap = pts_ns - previous;
            let missed = missed_frames(previous, pts_ns) as int;
            &&& previous == u64::MAX || gap <= 50_000_000 ==> missed == 0
            &&& previous != u64::MAX && gap > 50_000_000 ==> {
                &&& missed >= 1
                &&& missed * 33_333_333 <= gap
                &&& gap < (missed + 2) * 33_333_333
                &&& missed > 1 ==> (missed + 1) * 33_333_333 <= gap
            }
        }),
{
    if previous < pts_ns && pts_ns - previous > 50_000_000 {
        let gap = pts_ns - previous;
        let q = gap / 33_333_333;
        assert(q * 33_333_333 <= gap < (q + 1) * 33_333_333);
    }
}

/// Every stamp is remembered and adds the frames missing before it; a buffer without
/// a stamp leaves both alone. Buffers are counted by their number, and that touches
/// nothing else. The totals start over where they no longer fit.
pub proof fn counters_add_up(counter: DropCounter, pts_ns: u64, n: u64)
    ensures
        ({
            let stamped = counter.stamped(pts_ns);
            let total = counter.drops + missed_frames(counter.last_pts_ns, pts_ns);
            &&& stamped.last_pts_ns == pts_ns
            &&& stamped.buffers == counter.buffers
            &&& total < 0x1_0000_0000_0000_0000 ==> stamped.drops == total
            &&& counter.stamped_if(Some(pts_ns)) == stamped
            &&& counter.stamped_if(None) == counter
        }),
        ({
            let counted = counter.counted(n);
            let total = counter.buffers + n;
            &&& counted.drops == counter.drops && counted.last_pts_ns == counter.last_pts_ns
            &&& total < 0x1_0000_0000_0000_0000 ==> counted.buffers == total
            &&& total >= 0x1_0000_0000_0000_0000 ==> counted.buffers == total
                - 0x1_0000_0000_0000_0000
        }),
{
}

/// What is measured on an element goes by its factory.
pub proof fn elements_are_measured_by_their_factory(factory: Seq<char>)
    ensures
        probe_for(factory) == Probe::Drops <==> factory == "v4l2src"@,
        probe_for(factory) == Probe::QueueLevel <==> factory == "queue"@ || factory == "queue2"@,
        probe_for(factory) == Probe::RtpSession <==> factory == "rtpsession"@,
        probe_for(factory) == Probe::NiceSink <==> factory == "nicesink"@,
{
    reveal_strlit("v4l2src");
    reveal_strlit("queue");
    reveal_strlit("queue2");
    reveal_strlit("rtpsession");
    reveal_strlit("nicesink");
    assert("v4l2src"@.len() == 7 && "queue"@.len() == 5 && "queue2"@.len() == 6
        && "rtpsession"@.len() == 10 && "nicesink"@.len() == 8);
}

/// An extra queue drops the oldest, is silent, empties at the end of the stream, and
/// is bounded in buffers and in time, not in bytes: two seconds at 30 frames per
/// second, or four times that where the large sizing is switched on.
pub proof fn extra_queues_are_bounded(name: Seq<char>, env: Environment)
    ensures
        ({
            let queue = b1_queue_view(name, env);
            let large = crate::stream::debug_env::flag_set(env, "MCM_QUEUE_SIZING_LARGE"@);
            &&& queue.factory == "queue"@ && queue.name == Some(name) && queue.optional.len() == 0
            &&& queue.properties == seq![
                ("leaky"@, PropertyValueView::Text("downstream"@)),
                ("silent"@, PropertyValueView::Bool(true)),
                ("flush-on-eos"@, PropertyValueView::Bool(true)),
                (
                    "max-size-buffers"@,
                    PropertyValueView::UInt(
                        if large {
                            240u32
                        } else {
                            60u32
                        },
                    ),
                ),
                ("max-size-bytes"@, PropertyValueView::UInt(0u32)),
                (
                    "max-size-time"@,
                    PropertyValueView::ULong(
                        if large {
                            8_000_000_000u64
                        } else {
                            2_000_000_000u64
                        },
                    ),
                ),
            ]
        }),
{
    let large = crate::stream::debug_env::flag_set(env, "MCM_QUEUE_SIZING_LARGE"@);
    assert(b1_queue_view(name, env).properties =~= seq![
        ("leaky"@, PropertyValueView::Text("downstream"@)),
        ("silent"@, PropertyValueView::Bool(true)),
        ("flush-on-eos"@, PropertyValueView::Bool(true)),
        (
            "max-size-buffers"@,
            PropertyValueView::UInt(
                if large {
                    240u32
                } else {
                    60u32
                },
            ),
        ),
        ("max-size-bytes"@, PropertyValueView::UInt(0u32)),
        (
            "max-size-time"@,
            PropertyValueView::ULong(
                if large {
                    8_000_000_000u64
                } else {
                    2_000_000_000u64
                },
            ),
        ),
    ]);
}

} // verus!
