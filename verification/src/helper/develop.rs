//! A check that WebRTC sessions leave no thread behind: a browser opens and
//! closes sessions, cycle by cycle, and the threads of the process are watched.
use crate::text::{append_u64, decimal, texts};
use std::collections::HashMap;
use std::hash::Hash;
use vstd::pervasive::cloned;
use vstd::prelude::*;
use vstd::std_specs::hash::obeys_key_model;
use vstd::std_specs::iter::IteratorSpec;

verus! {

/// The entries of `map1` whose key `map2` does not have. Equal keys have to be the
/// same key, as those of numbers and texts are.
pub fn get_difference_map<K, V>(map1: &HashMap<K, V>, map2: &HashMap<K, V>) -> (r: HashMap<K, V>)
    where K: Hash + Eq + Copy, V: Clone
    requires
        obeys_key_model::<K>(),
    ensures
        forall|k: K| #[trigger]
            r@.contains_key(k) <==> map1@.contains_key(k) && !map2@.contains_key(k),
        forall|k: K| #[trigger] r@.contains_key(k) ==> cloned::<V>(map1@[k], r@[k]),
{
    broadcast use vstd::std_specs::hash::group_hash_axioms;

    let mut r: HashMap<K, V> = HashMap::new();
    for entry in it: map1.iter()
        invariant
            obeys_key_model::<K>(),
            forall|k: K| #[trigger]
                r@.contains_key(k) ==> map1@.contains_key(k) && !map2@.contains_key(k)
                    && cloned::<V>(map1@[k], r@[k]),
            forall|j: int|
                #![trigger it.seq()[j]]
                0 <= j < it.index() && !map2@.contains_key(*it.seq()[j].0) ==> r@.contains_key(
                    *it.seq()[j].0,
                ),
    {
        let (k, v) = entry;
        assert(map1@.contains_key(*k) && map1@[*k] == *v);
        if !map2.contains_key(k) {
            r.insert(*k, v.clone());
        }
    }
    assert forall|k: K| map1@.contains_key(k) && !map2@.contains_key(k) implies #[trigger]
    r@.contains_key(k) by {
        assert(map1.iter().remaining().contains((&k, &map1@[k])));
    }
    r
}

/// How the driver of the browser is started: with its port, and with everything
/// off that would disturb the check.
pub open spec fn driver_arguments(port: u16) -> Seq<Seq<char>> {
    seq![
        "--port="@ + decimal(port as nat),
        "--allow-running-insecure-content"@,
        "--autoplay-policy=user-gesture-required"@,
        "--disable-add-to-shelf"@,
        "--disable-background-networking"@,
        "--disable-background-timer-throttling"@,
        "--disable-backgrounding-occluded-windows"@,
        "--disable-breakpad"@,
        "--disable-checker-imaging"@,
        "--disable-client-side-phishing-detection"@,
        "--disable-component-extensions-with-background-pages"@,
        "--disable-datasaver-prompt"@,
        "--disable-default-apps"@,
        "--disable-desktop-notifications"@,
        "--disable-dev-shm-usage"@,
        "--disable-domain-reliability"@,
        "--disable-extensions"@,
        "--disable-features=TranslateUI,BlinkGenPropertyTrees"@,
        "--disable-hang-monitor"@,
        "--disable-infobars"@,
        "--disable-ipc-flooding-protection"@,
        "--disable-notifications"@,
        "--disable-popup-blocking"@,
        "--disable-prompt-on-repost"@,
        "--disable-renderer-backgrounding"@,
        "--disable-setuid-sandbox"@,
        "--disable-site-isolation-trials"@,
        "--disable-sync"@,
        "--disable-web-security"@,
        "--enable-automation"@,
        "--force-color-profile=srgb"@,
        "--force-device-scale-factor=1"@,
        "--ignore-certificate-errors"@,
        "--js-flags=--random-seed=1157259157"@,
        "--disable-logging"@,
        "--metrics-recording-only"@,
        "--mute-audio"@,
        "--no-default-browser-check"@,
        "--no-first-run"@,
        "--no-sandbox"@,
        "--password-store=basic"@,
        "--test-type"@,
        "--use-mock-keychain"@,
    ]
}

/// The arguments of the driver of the browser.
pub fn chromedriver_arguments(port: u16) -> (r: Vec<String>)
    ensures
        texts(r@) == driver_arguments(port),
{
    let mut first = "--port=".to_owned();
    append_u64(&mut first, port as u64);
    let mut list: Vec<String> = Vec::new();
    list.push(first);
    list.push("--allow-running-insecure-content".to_owned());
    list.push("--autoplay-policy=user-gesture-required".to_owned());
    list.push("--disable-add-to-shelf".to_owned());
    list.push("--disable-background-networking".to_owned());
    list.push("--disable-background-timer-throttling".to_owned());
    list.push("--disable-backgrounding-occluded-windows".to_owned());
    list.push("--disable-breakpad".to_owned());
    list.push("--disable-checker-imaging".to_owned());
    list.push("--disable-client-side-phishing-detection".to_owned());
    list.push("--disable-component-extensions-with-background-pages".to_owned());
    list.push("--disable-datasaver-prompt".to_owned());
    list.push("--disable-default-apps".to_owned());
    list.push("--disable-desktop-notifications".to_owned());
    list.push("--disable-dev-shm-usage".to_owned());
    list.push("--disable-domain-reliability".to_owned());
    list.push("--disable-extensions".to_owned());
    list.push("--disable-features=TranslateUI,BlinkGenPropertyTrees".to_owned());
    list.push("--disable-hang-monitor".to_owned());
    list.push("--disable-infobars".to_owned());
    list.push("--disable-ipc-flooding-protection".to_owned());
    list.push("--disable-notifications".to_owned());
    list.push("--disable-popup-blocking".to_owned());
    list.push("--disable-prompt-on-repost".to_owned());
    list.push("--disable-renderer-backgrounding".to_owned());
    list.push("--disable-setuid-sandbox".to_owned());
    list.push("--disable-site-isolation-trials".to_owned());
    list.push("--disable-sync".to_owned());
    list.push("--disable-web-security".to_owned());
    list.push("--enable-automation".to_owned());
    list.push("--force-color-profile=srgb".to_owned());
    list.push("--force-device-scale-factor=1".to_owned());
    list.push("--ignore-certificate-errors".to_owned());
    list.push("--js-flags=--random-seed=1157259157".to_owned());
    list.push("--disable-logging".to_owned());
    list.push("--metrics-recording-only".to_owned());
    list.push("--mute-audio".to_owned());
    list.push("--no-default-browser-check".to_owned());
    list.push("--no-first-run".to_owned());
    list.push("--no-sandbox".to_owned());
    list.push("--password-store=basic".to_owned());
    list.push("--test-type".to_owned());
    list.push("--use-mock-keychain".to_owned());
    assert(texts(list@) =~= driver_arguments(port));
    list
}

/// Where the driver of the browser listens.
pub fn webdriver_address(port: u16) -> (r: String)
    ensures
        r@ == "http://127.0.0.1:"@ + decimal(port as nat),
{
    let mut s = "http://127.0.0.1:".to_owned();
    append_u64(&mut s, port as u64);
    s
}

/// The page that opens and closes sessions.
pub fn webrtc_frontend_url(frontend_address: &str) -> (r: String)
    ensures
        r@ == "http://"@ + frontend_address@ + "/webrtc"@,
{
    let mut s = "http://".to_owned();
    s.append(frontend_address);
    s.append("/webrtc");
    s
}

/// How many sessions are opened in a cycle.
pub const SESSIONS_PER_CONSUMER: usize = 5;

/// How long sessions may take until they play, and threads until they are gone.
pub const CYCLE_TIMEOUT_SECONDS: u64 = 30;

/// The last cycle of the check, where the first is number zero.
pub const SESSION_CYCLES: i32 = 5;

/// One step of a cycle.
#[derive(Clone, Copy, Debug, PartialEq, Eq, Structural)]
pub enum CycleStep {
    /// Take down which threads there are.
    Snapshot,
    /// Press the button that adds a consumer.
    AddConsumer,
    /// Press the button that adds a session, and give it a moment.
    AddSession,
    /// Wait until all sessions play.
    AwaitPlaying,
    /// Press the button that removes the consumer.
    RemoveConsumer,
    /// Wait until the threads that came in this cycle are gone.
    AwaitTasks,
    /// Tell how the cycle went.
    Report,
}

/// How a step went.
#[derive(Clone, Copy, Debug, PartialEq, Eq, Structural)]
pub enum StepOutcome {
    Done,
    /// It took too long.
    TimedOut,
    /// The browser failed.
    Failed,
}

/// What came out of the check.
#[derive(Clone, Copy, Debug, PartialEq, Eq, Structural)]
pub enum Verdict {
    Passed,
    /// Threads of that cycle were left behind.
    Leaked { cycle: i32 },
    Failed,
}

/// The number of steps in a cycle.
pub const CYCLE_STEPS: u64 = 11;

pub open spec fn step_at(position: int) -> CycleStep {
    if position <= 0 {
        CycleStep::Snapshot
    } else if position == 1 {
        CycleStep::AddConsumer
    } else if position < 2 + SESSIONS_PER_CONSUMER {
        CycleStep::AddSession
    } else if position == 7 {
        CycleStep::AwaitPlaying
    } else if position == 8 {
        CycleStep::RemoveConsumer
    } else if position == 9 {
        CycleStep::AwaitTasks
    } else {
        CycleStep::Report
    }
}

/// The check and how far it is.
#[derive(Clone, Copy, Debug, PartialEq, Eq, Structural)]
pub struct ReconnectCheck {
    pub session_cycles: i32,
    pub cycle: i32,
    /// The step of the cycle that comes next.
    pub position: u64,
    pub verdict: Option<Verdict>,
}

impl ReconnectCheck {
    /// The invariant: a check that is not over is at a step of one of its cycles.
    pub open spec fn wf(self) -> bool {
        self.verdict is None ==> 0 <= self.cycle <= self.session_cycles && self.position
            < CYCLE_STEPS
    }

    pub open spec fn begin(session_cycles: i32) -> ReconnectCheck {
        ReconnectCheck {
            session_cycles,
            cycle: 0,
            position: 0,
            verdict: if session_cycles < 0 {
                Some(Verdict::Passed)
            } else {
                None
            },
        }
    }

    /// A check of as many cycles, and one more.
    pub fn new(session_cycles: i32) -> (r: ReconnectCheck)
        ensures
            r == ReconnectCheck::begin(session_cycles),
            r.wf(),
    {
        ReconnectCheck {
            session_cycles,
            cycle: 0,
            position: 0,
            verdict: if session_cycles < 0 {
                Some(Verdict::Passed)
            } else {
                None
            },
        }
    }

    pub open spec fn over(self, verdict: Verdict) -> ReconnectCheck {
        ReconnectCheck { verdict: Some(verdict), ..self }
    }

    /// The check with this step behind it.
    pub open spec fn stepped(self) -> ReconnectCheck {
        if self.position + 1 < CYCLE_STEPS {
            ReconnectCheck { position: (self.position + 1) as u64, ..self }
        } else if self.cycle < self.session_cycles {
            ReconnectCheck { cycle: (self.cycle + 1) as i32, position: 0, ..self }
        } else {
            self.over(Verdict::Passed)
        }
    }

    /// The check after a step. Threads that outlive their cycle are a leak, but for
    /// the first cycle, in which what is needed once is set up.
    pub open spec fn after(self, outcome: StepOutcome) -> ReconnectCheck {
        if self.verdict is Some {
            self
        } else {
            match outcome {
                StepOutcome::Done => self.stepped(),
                StepOutcome::TimedOut => if step_at(self.position as int) != CycleStep::AwaitTasks {
                    self.over(Verdict::Failed)
                } else if self.cycle > 0 {
                    self.over(Verdict::Leaked { cycle: self.cycle })
                } else {
                    self.stepped()
                },
                StepOutcome::Failed => self.over(Verdict::Failed),
            }
        }
    }

    /// The step to be made.
    pub fn next_step(&self) -> (r: Option<CycleStep>)
        ensures
            r == (if self.verdict is Some {
                None
            } else {
                Some(step_at(self.position as int))
            }),
    {
        if self.verdict.is_some() {
            return None;
        }
        let position: u64 = self.position;
        Some(
            if position == 0 {
                CycleStep::Snapshot
            } else if position == 1 {
                CycleStep::AddConsumer
            } else if position < 7 {
                CycleStep::AddSession
            } else if position == 7 {
                CycleStep::AwaitPlaying
            } else if position == 8 {
                CycleStep::RemoveConsumer
            } else if position == 9 {
                CycleStep::AwaitTasks
            } else {
                CycleStep::Report
            },
        )
    }

    /// Takes down how a step went.
    pub fn report(&mut self, outcome: StepOutcome)
        requires
            old(self).wf(),
        ensures
            final(self).wf(),
            *final(self) == old(self).after(outcome),
    {
        match self.next_step() {
            None => {},
            Some(step) => match outcome {
                StepOutcome::Failed => {
                    self.verdict = Some(Verdict::Failed);
                },
                StepOutcome::TimedOut => match step {
                    CycleStep::AwaitTasks => {
                        if self.cycle > 0 {
                            self.verdict = Some(Verdict::Leaked { cycle: self.cycle });
                        } else {
                            self.go_on();
                        }
                    },
                    _ => {
                        self.verdict = Some(Verdict::Failed);
                    },
                },
                StepOutcome::Done => {
                    self.go_on();
                },
            },
        }
    }

    fn go_on(&mut self)
        requires
            old(self).wf(),
            old(self).verdict is None,
        ensures
            final(self).wf(),
            *final(self) == old(self).stepped(),
    {
        if self.position + 1 < CYCLE_STEPS {
            self.position = self.position + 1;
        } else if self.cycle < self.session_cycles {
            self.cycle = self.cycle + 1;
            self.position = 0;
        } else {
            self.verdict = Some(Verdict::Passed);
        }
    }

    /// How many steps are left where all goes well.
    pub open spec fn left(self) -> int {
        if self.verdict is Some {
            0
        } else {
            (self.session_cycles - self.cycle) * CYCLE_STEPS + (CYCLE_STEPS - self.position)
        }
    }
}

/// Whether as many sessions play as were opened.
pub fn all_playing(playing: usize) -> (r: bool)
    ensures
        r == (playing == SESSIONS_PER_CONSUMER),
{
    playing == SESSIONS_PER_CONSUMER
}

/// What is told of a leak, where `survivors` shows the threads left behind.
pub fn leak_message(cycle: i32, survivors: &str) -> (r: String)
    requires
        cycle >= 0,
    ensures
        r@ == "Thread leak detected on cycle "@ + decimal(cycle as nat) + ":\n"@ + survivors@,
{
    let mut s = "Thread leak detected on cycle ".to_owned();
    append_u64(&mut s, cycle as u64);
    s.append(":\n");
    s.append(survivors);
    s
}

/// Every step brings the check nearer to its end, by one where all goes well, and
/// a check of which nothing is left has its verdict.
pub proof fn checks_end(check: ReconnectCheck, outcome: StepOutcome)
    requires
        check.wf(),
    ensures
        check.verdict is None ==> 0 <= check.after(outcome).left() < check.left(),
        check.verdict is None && outcome == StepOutcome::Done ==> check.after(outcome).left()
            == check.left() - 1,
        check.left() == 0 <==> check.verdict is Some,
{
    let d = check.session_cycles - check.cycle;
    assert(check.verdict is None ==> d * CYCLE_STEPS >= 0) by (nonlinear_arith)
        requires
            check.verdict is None ==> d >= 0,
    ;
    assert((d - 1) * CYCLE_STEPS == d * CYCLE_STEPS - CYCLE_STEPS) by (nonlinear_arith);
    if check.verdict is None && d >= 1 {
        assert((d - 1) * CYCLE_STEPS >= 0) by (nonlinear_arith)
            requires
                d >= 1,
        ;
    }
}

/// Only a thread that outlives a cycle after the first is called a leak.
pub proof fn leaks_are_never_blamed_on_the_first_cycle(check: ReconnectCheck, outcome: StepOutcome)
    requires
        check.wf(),
        check.verdict is None,
    ensures
        check.after(outcome).verdict matches Some(Verdict::Leaked { cycle }) ==> cycle > 0 && cycle
            == check.cycle && outcome == StepOutcome::TimedOut && step_at(check.position as int)
            == CycleStep::AwaitTasks,
{
}

/// A cycle notes the threads, adds a consumer and five sessions, waits until they
/// play, removes the consumer, waits until its threads are gone, and reports, one step
/// after the other.
pub proof fn cycles_go_step_by_step(position: int)
    requires
        0 <= position < 11,
    ensures
        step_at(position) == CycleStep::Snapshot <==> position == 0,
        step_at(position) == CycleStep::AddConsumer <==> position == 1,
        step_at(position) == CycleStep::AddSession <==> 2 <= position <= 6,
        step_at(position) == CycleStep::AwaitPlaying <==> position == 7,
        step_at(position) == CycleStep::RemoveConsumer <==> position == 8,
        step_at(position) == CycleStep::AwaitTasks <==> position == 9,
        step_at(position) == CycleStep::Report <==> position == 10,
{
}

/// A check goes on as long as its steps go well, through all of its cycles, and has
/// passed after the last step of the last one. It fails where the browser does, or
/// where a step takes too long, but for threads that are not gone in time: in the first
/// cycle those are let pass, in any other they are a leak of that cycle. A verdict
/// stays.
pub proof fn checks_end_for_a_reason(check: ReconnectCheck, outcome: StepOutcome)
    requires
        check.wf(),
    ensures
        ({
            let after = check.after(outcome);
            let late = outcome == StepOutcome::TimedOut;
            let waits = check.position == 9;
            let goes_on = outcome == StepOutcome::Done || (late && waits && check.cycle == 0);
            let last = check.position == 10 && check.cycle == check.session_cycles;
            &&& check.verdict is Some ==> after == check
            &&& check.verdict is None ==> {
                &&& after.verdict == Some(Verdict::Failed) <==> outcome == StepOutcome::Failed || (
                late && !waits)
                &&& after.verdict is Some && after.verdict->0 is Leaked <==> late && waits
                    && check.cycle > 0
                &&& after.verdict is Some && after.verdict->0 is Leaked ==> after.verdict
                    == Some(Verdict::Leaked { cycle: check.cycle })
                &&& after.verdict == Some(Verdict::Passed) <==> goes_on && last
                &&& goes_on && !last && check.position < 10 ==> after.position == check.position + 1
                    && after.cycle == check.cycle
                &&& goes_on && !last && check.position == 10 ==> after.position == 0 && after.cycle
                    == check.cycle + 1
                &&& after.session_cycles == check.session_cycles
            }
        }),
        ({
            let begun = ReconnectCheck::begin(check.session_cycles);
            &&& begun.cycle == 0 && begun.position == 0
            &&& begun.verdict is None <==> check.session_cycles >= 0
        }),
{
}

/// The driver listens on the port that it is told first.
pub proof fn drivers_listen_where_they_are_told(port: u16)
    ensures
        driver_arguments(port)[0] == "--port="@ + decimal(port as nat),
        driver_arguments(port).len() == 43,
{
}

/// The browser is started without what would ask, update, or leave traces, and is told
/// the same whatever the port.
pub proof fn browsers_are_kept_quiet(port: u16)
    ensures
        driver_arguments(port).skip(1) == seq![
            "--allow-running-insecure-content"@,
            "--autoplay-policy=user-gesture-required"@,
            "--disable-add-to-shelf"@,
            "--disable-background-networking"@,
            "--disable-background-timer-throttling"@,
            "--disable-backgrounding-occluded-windows"@,
            "--disable-breakpad"@,
            "--disable-checker-imaging"@,
            "--disable-client-side-phishing-detection"@,
            "--disable-component-extensions-with-background-pages"@,
            "--disable-datasaver-prompt"@,
            "--disable-default-apps"@,
            "--disable-desktop-notifications"@,
            "--disable-dev-shm-usage"@,
            "--disable-domain-reliability"@,
            "--disable-extensions"@,
            "--disable-features=TranslateUI,BlinkGenPropertyTrees"@,
            "--disable-hang-monitor"@,
            "--disable-infobars"@,
            "--disable-ipc-flooding-protection"@,
            "--disable-notifications"@,
            "--disable-popup-blocking"@,
            "--disable-prompt-on-repost"@,
            "--disable-renderer-backgrounding"@,
            "--disable-setuid-sandbox"@,
            "--disable-site-isolation-trials"@,
            "--disable-sync"@,
            "--disable-web-security"@,
            "--enable-automation"@,
            "--force-color-profile=srgb"@,
            "--force-device-scale-factor=1"@,
            "--ignore-certificate-errors"@,
            "--js-flags=--random-seed=1157259157"@,
            "--disable-logging"@,
            "--metrics-recording-only"@,
            "--mute-audio"@,
            "--no-default-browser-check"@,
            "--no-first-run"@,
            "--no-sandbox"@,
            "--password-store=basic"@,
            "--test-type"@,
            "--use-mock-keychain"@,
        ],
{
}

/// A check that is not over is at one of the steps of one of its cycles: the last cycle
/// is the one of its number, the last step the one that reports.
pub proof fn checks_are_at_a_step(check: ReconnectCheck)
    ensures
        check.wf() <==> check.verdict is Some || (check.cycle >= 0 && check.cycle
            <= check.session_cycles && check.position <= 10),
{
}

} // verus!
