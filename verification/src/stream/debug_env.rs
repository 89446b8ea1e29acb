//! Diagnostic switches taken from the environment when a pipeline is built.
//!
//! `MCM_QUEUE_*` asks for extra `queue` elements along the path from the device
//! to the sinks, `MCM_DISABLE_*` leaves a kind of sink out, and
//! `MCM_UDP_DECOUPLER` picks what stands between the tee and a sink that has a
//! pipeline of its own. The library sees the environment as a snapshot, so that
//! every answer is a function of it.
use vstd::prelude::*;

use crate::text::{lowered, same_text};

verus! {

/// The environment variables whose names and values are text, in the order in
/// which they were read.
pub struct Environment {
    pub vars: Vec<(String, String)>,
}

/// The value of the first variable called `name`.
pub open spec fn lookup(vars: Seq<(String, String)>, name: Seq<char>) -> Option<Seq<char>>
    decreases vars.len(),
{
    if vars.len() == 0 {
        None
    } else if vars[0].0@ == name {
        Some(vars[0].1@)
    } else {
        lookup(vars.skip(1), name)
    }
}

impl Environment {
    /// What the variable `name` is set to, if it is set.
    pub open spec fn value(self, name: Seq<char>) -> Option<Seq<char>> {
        lookup(self.vars@, name)
    }

    /// Looks a variable up.
    pub fn get(&self, name: &str) -> (r: Option<String>)
        ensures
            match r {
                Some(v) => self.value(name@) == Some(v@),
                None => self.value(name@) is None,
            },
    {
        let mut i: usize = 0;
        assert(self.vars@.skip(0) =~= self.vars@);
        while i < self.vars.len()
            invariant
                i <= self.vars.len(),
                self.value(name@) == lookup(self.vars@.skip(i as int), name@),
            decreases self.vars.len() - i,
        {
            assert(self.vars@.skip(i as int)[0] == self.vars@[i as int]);
            if same_text(self.vars[i].0.as_str(), name) {
                return Some(self.vars[i].1.clone());
            }
            assert(self.vars@.skip(i as int).skip(1) =~= self.vars@.skip(i + 1));
            i += 1;
        }
        None
    }
}

/// The values that turn a switch on.
pub open spec fn is_truthy(value: Seq<char>) -> bool {
    ||| value == "1"@
    ||| value == "true"@
    ||| value == "TRUE"@
    ||| value == "yes"@
    ||| value == "YES"@
}

/// Whether the switch `name` is on: set, and to one of the truthy values.
pub open spec fn flag_set(env: Environment, name: Seq<char>) -> bool {
    match env.value(name) {
        Some(value) => is_truthy(value),
        None => false,
    }
}

fn flag(env: &Environment, name: &str) -> (r: bool)
    ensures
        r == flag_set(*env, name@),
{
    match env.get(name) {
        Some(value) => {
            let v = value.as_str();
            same_text(v, "1") || same_text(v, "true") || same_text(v, "TRUE") || same_text(v, "yes")
                || same_text(v, "YES")
        },
        None => false,
    }
}

/// Insert a `queue` between `v4l2src` and `h264parse`.
pub fn queue_at_v4l2src(env: &Environment) -> (r: bool)
    ensures
        r == flag_set(*env, "MCM_QUEUE_AT_V4L2SRC"@),
{
    flag(env, "MCM_QUEUE_AT_V4L2SRC")
}

/// Insert a `queue` between the video tee and the payloader.
pub fn queue_before_payloader(env: &Environment) -> (r: bool)
    ensures
        r == flag_set(*env, "MCM_QUEUE_BEFORE_PAYLOADER"@),
{
    flag(env, "MCM_QUEUE_BEFORE_PAYLOADER")
}

/// Insert a `queue` between the payloader and the RTP tee.
pub fn queue_after_payloader(env: &Environment) -> (r: bool)
    ensures
        r == flag_set(*env, "MCM_QUEUE_AFTER_PAYLOADER"@),
{
    flag(env, "MCM_QUEUE_AFTER_PAYLOADER")
}

/// Put a `queue` between the tee and the first element of each sink.
pub fn queue_per_sink_branch(env: &Environment) -> (r: bool)
    ensures
        r == flag_set(*env, "MCM_QUEUE_PER_SINK_BRANCH"@),
{
    flag(env, "MCM_QUEUE_PER_SINK_BRANCH")
}

/// Leave the zenoh/MCAP sink out.
pub fn disable_mcap(env: &Environment) -> (r: bool)
    ensures
        r == flag_set(*env, "MCM_DISABLE_MCAP"@),
{
    flag(env, "MCM_DISABLE_MCAP")
}

/// Leave the image/thumbnail sink out.
pub fn disable_thumbnail(env: &Environment) -> (r: bool)
    ensures
        r == flag_set(*env, "MCM_DISABLE_THUMBNAIL"@),
{
    flag(env, "MCM_DISABLE_THUMBNAIL")
}

/// Leave UDP sinks out.
pub fn disable_udp(env: &Environment) -> (r: bool)
    ensures
        r == flag_set(*env, "MCM_DISABLE_UDP"@),
{
    flag(env, "MCM_DISABLE_UDP")
}

/// Refuse WebRTC sessions.
pub fn disable_webrtc(env: &Environment) -> (r: bool)
    ensures
        r == flag_set(*env, "MCM_DISABLE_WEBRTC"@),
{
    flag(env, "MCM_DISABLE_WEBRTC")
}

/// Use the larger sizing for the extra queues.
pub fn queue_sizing_large(env: &Environment) -> (r: bool)
    ensures
        r == flag_set(*env, "MCM_QUEUE_SIZING_LARGE"@),
{
    flag(env, "MCM_QUEUE_SIZING_LARGE")
}

/// Let one stream have UDP and RTSP endpoints at once.
pub fn allow_udp_rtsp_concurrent(env: &Environment) -> (r: bool)
    ensures
        r == flag_set(*env, "MCM_ALLOW_UDP_RTSP_CONCURRENT"@),
{
    flag(env, "MCM_ALLOW_UDP_RTSP_CONCURRENT")
}

/// The limits of an extra queue: buffers and nanoseconds.
pub open spec fn b1_queue_limits(env: Environment) -> (u32, u64) {
    if flag_set(env, "MCM_QUEUE_SIZING_LARGE"@) {
        (240u32, 8_000_000_000u64)
    } else {
        (60u32, 2_000_000_000u64)
    }
}

/// The most buffers and the most nanoseconds that an extra queue holds, and
/// its leaky mode. The default absorbs about two seconds at 30 frames per
/// second; the large sizing four times that.
pub fn b1_queue_sizing(env: &Environment) -> (r: (u32, u64, &'static str))
    ensures
        (r.0, r.1) == b1_queue_limits(*env),
        r.2@ == "downstream"@,
{
    if queue_sizing_large(env) {
        (240, 8_000_000_000, "downstream")
    } else {
        (60, 2_000_000_000, "downstream")
    }
}

/// What decouples a sink with a pipeline of its own from the tee that feeds it.
#[derive(Clone, Copy, Debug, PartialEq, Eq, Structural)]
pub enum UdpDecoupler {
    /// An `appsink`/`appsrc` callback bridge; the one-buffer `appsink` decouples.
    Appsink,
    /// An extra queue before `proxysink`; the queue inside `proxysrc` is taken
    /// out after the first buffer.
    B1,
    /// The default: no extra queue; the one-buffer queue inside `proxysrc` stays.
    Proxy,
    /// No extra queue, and the queue inside `proxysrc` is taken out after the
    /// first buffer. Nothing decouples then; kept as a baseline to measure
    /// against.
    Legacy,
}

/// The decoupler that a setting names; names are compared without regard to
/// ASCII case, and an unknown one means `Proxy`.
pub open spec fn decoupler_named(value: Seq<char>) -> UdpDecoupler {
    let lower = lowered(value);
    if lower == "appsink"@ {
        UdpDecoupler::Appsink
    } else if lower == "b1"@ {
        UdpDecoupler::B1
    } else if lower == "proxy"@ {
        UdpDecoupler::Proxy
    } else if lower == "legacy"@ {
        UdpDecoupler::Legacy
    } else {
        UdpDecoupler::Proxy
    }
}

/// The decoupler that an environment selects.
pub open spec fn selected_decoupler(env: Environment) -> UdpDecoupler {
    match env.value("MCM_UDP_DECOUPLER"@) {
        Some(value) => decoupler_named(value),
        None => if flag_set(env, "MCM_QUEUE_PER_SINK_BRANCH"@) {
            UdpDecoupler::B1
        } else {
            UdpDecoupler::Proxy
        },
    }
}

/// `Appsink` has no meaning for sinks that already end in an application
/// element; it is read as `Proxy` there.
pub open spec fn without_appsink(d: UdpDecoupler) -> UdpDecoupler {
    if d == UdpDecoupler::Appsink {
        UdpDecoupler::Proxy
    } else {
        d
    }
}

/// The decoupler of UDP sinks, from `MCM_UDP_DECOUPLER`. Where that is unset,
/// `MCM_QUEUE_PER_SINK_BRANCH` still implies `B1`.
pub fn udp_decoupler(env: &Environment) -> (r: UdpDecoupler)
    ensures
        r == selected_decoupler(*env),
{
    match env.get("MCM_UDP_DECOUPLER") {
        Some(value) => {
            let lower = value.as_str().to_ascii_lowercase();
            let name = lower.as_str();
            if same_text(name, "appsink") {
                UdpDecoupler::Appsink
            } else if same_text(name, "b1") {
                UdpDecoupler::B1
            } else if same_text(name, "proxy") {
                UdpDecoupler::Proxy
            } else if same_text(name, "legacy") {
                UdpDecoupler::Legacy
            } else {
                UdpDecoupler::Proxy
            }
        },
        None => if queue_per_sink_branch(env) {
            UdpDecoupler::B1
        } else {
            UdpDecoupler::Proxy
        },
    }
}

/// The decoupler of the zenoh sink: that of UDP sinks, with `Appsink` read as
/// `Proxy`.
pub fn zenoh_decoupler(env: &Environment) -> (r: UdpDecoupler)
    ensures
        r == without_appsink(selected_decoupler(*env)),
        r != UdpDecoupler::Appsink,
{
    match udp_decoupler(env) {
        UdpDecoupler::Appsink => UdpDecoupler::Proxy,
        other => other,
    }
}

/// The decoupler of the WebRTC sink: that of UDP sinks, with `Appsink` read as
/// `Proxy`.
pub fn webrtc_decoupler(env: &Environment) -> (r: UdpDecoupler)
    ensures
        r == without_appsink(selected_decoupler(*env)),
        r != UdpDecoupler::Appsink,
{
    match udp_decoupler(env) {
        UdpDecoupler::Appsink => UdpDecoupler::Proxy,
        other => other,
    }
}

/// Extra queues hold two seconds at 30 frames per second, both by their buffers
/// and by their time; the large sizing is four times the default one.
pub proof fn large_queues_are_four_times_the_default(default: Environment, large: Environment)
    requires
        !flag_set(default, "MCM_QUEUE_SIZING_LARGE"@),
        flag_set(large, "MCM_QUEUE_SIZING_LARGE"@),
    ensures
        b1_queue_limits(default).0 == 2 * 30,
        b1_queue_limits(default).1 == 2 * 1_000_000_000,
        b1_queue_limits(large).0 == 4 * b1_queue_limits(default).0,
        b1_queue_limits(large).1 == 4 * b1_queue_limits(default).1,
{
}

/// With nothing set, every switch is off and the decoupler is `Proxy`.
pub proof fn unset_environment_is_the_default(env: Environment)
    requires
        env.vars@.len() == 0,
    ensures
        forall|name: Seq<char>| !#[trigger] flag_set(env, name),
        selected_decoupler(env) == UdpDecoupler::Proxy,
        b1_queue_limits(env) == (60u32, 2_000_000_000u64),
{
}

proof fn first_value_counts(vars: Seq<(String, String)>, name: Seq<char>, i: int)
    requires
        0 <= i < vars.len(),
        vars[i].0@ == name,
        forall|j: int| 0 <= j < i ==> (#[trigger] vars[j]).0@ != name,
    ensures
        lookup(vars, name) == Some(vars[i].1@),
    decreases i,
{
    if i > 0 {
        let rest = vars.skip(1);
        assert(vars[0].0@ != name);
        assert(rest[i - 1] == vars[i]);
        assert forall|j: int| 0 <= j < i - 1 implies (#[trigger] rest[j]).0@ != name by {
            assert(rest[j] == vars[j + 1]);
        }
        first_value_counts(rest, name, i - 1);
    }
}

proof fn absent_values_are_none(vars: Seq<(String, String)>, name: Seq<char>)
    requires
        forall|j: int| 0 <= j < vars.len() ==> (#[trigger] vars[j]).0@ != name,
    ensures
        lookup(vars, name) is None,
    decreases vars.len(),
{
    if vars.len() > 0 {
        let rest = vars.skip(1);
        assert(vars[0].0@ != name);
        assert forall|j: int| 0 <= j < rest.len() implies (#[trigger] rest[j]).0@ != name by {
            assert(rest[j] == vars[j + 1]);
        }
        absent_values_are_none(rest, name);
    }
}

/// A switch is on exactly where the first variable of its name is set to `1`, `true`,
/// `TRUE`, `yes` or `YES`.
pub proof fn switches_are_on_where_they_are_set(env: Environment, name: Seq<char>, i: int)
    requires
        0 <= i < env.vars@.len(),
        env.vars@[i].0@ == name,
        forall|j: int| 0 <= j < i ==> (#[trigger] env.vars@[j]).0@ != name,
    ensures
        ({
            let value = env.vars@[i].1@;
            flag_set(env, name) <==> value == "1"@ || value == "true"@ || value == "TRUE"@ || value
                == "yes"@ || value == "YES"@
        }),
{
    first_value_counts(env.vars@, name, i);
}

/// A switch that is not set is off.
pub proof fn switches_that_are_not_set_are_off(env: Environment, name: Seq<char>)
    requires
        forall|j: int| 0 <= j < env.vars@.len() ==> (#[trigger] env.vars@[j]).0@ != name,
    ensures
        !flag_set(env, name),
{
    absent_values_are_none(env.vars@, name);
}

/// The decoupler is the one that the first `MCM_UDP_DECOUPLER` names, whether in
/// capital letters or not; a name that is not known means `Proxy`.
pub proof fn named_decouplers_are_selected(env: Environment, i: int)
    requires
        0 <= i < env.vars@.len(),
        env.vars@[i].0@ == "MCM_UDP_DECOUPLER"@,
        forall|j: int| 0 <= j < i ==> (#[trigger] env.vars@[j]).0@ != "MCM_UDP_DECOUPLER"@,
    ensures
        ({
            let name = lowered(env.vars@[i].1@);
            let selected = selected_decoupler(env);
            &&& selected == UdpDecoupler::Appsink <==> name == "appsink"@
            &&& selected == UdpDecoupler::B1 <==> name == "b1"@
            &&& selected == UdpDecoupler::Legacy <==> name == "legacy"@
        }),
{
    first_value_counts(env.vars@, "MCM_UDP_DECOUPLER"@, i);
    reveal_strlit("appsink");
    reveal_strlit("b1");
    reveal_strlit("proxy");
    reveal_strlit("legacy");
    assert("legacy"@.len() != "proxy"@.len());
    assert("b1"@.len() != "proxy"@.len());
    assert("b1"@.len() != "appsink"@.len());
    assert("legacy"@.len() != "appsink"@.len());
    assert("legacy"@.len() != "b1"@.len());
}

/// Where no decoupler is named, the switch for a queue per branch asks for `B1`, and
/// without it there is `Proxy`. Sinks that end in an application element have the
/// decoupler of UDP sinks, but `Proxy` where that is `Appsink`.
pub proof fn unnamed_decouplers_follow_the_switch(env: Environment, decoupler: UdpDecoupler)
    requires
        forall|j: int|
            0 <= j < env.vars@.len() ==> (#[trigger] env.vars@[j]).0@ != "MCM_UDP_DECOUPLER"@,
    ensures
        selected_decoupler(env) == UdpDecoupler::B1 <==> flag_set(
            env,
            "MCM_QUEUE_PER_SINK_BRANCH"@,
        ),
        selected_decoupler(env) == UdpDecoupler::Proxy <==> !flag_set(
            env,
            "MCM_QUEUE_PER_SINK_BRANCH"@,
        ),
        without_appsink(decoupler) == decoupler <==> decoupler != UdpDecoupler::Appsink,
        without_appsink(UdpDecoupler::Appsink) == UdpDecoupler::Proxy,
{
    absent_values_are_none(env.vars@, "MCM_UDP_DECOUPLER"@);
}

} // verus!
