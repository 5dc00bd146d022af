//! Waiting for a local service to accept connections: probe the address, and
//! after each failed probe pause a second; give up after 120 failed probes.
//! The decisions are a state machine; the application performs its actions
//! (connecting, sleeping) and hands back what happened.
use vstd::prelude::*;

verus! {

/// How many probes are made before giving up.
pub const PORT_WAIT_TRIES: u32 = 120;

/// Pause after each failed probe, in milliseconds.
pub const PORT_WAIT_PAUSE_MS: u64 = 1000;

/// What the application is asked to do next.
#[derive(PartialEq, Eq, Structural, Clone, Copy, Debug)]
pub enum WaitAction {
    /// Try to connect to the address once.
    Probe,
    /// Sleep for the given number of milliseconds.
    Sleep(u64),
    /// The wait is over: whether the address accepted a connection.
    Finish(bool),
}

/// What happened to the last action.
#[derive(PartialEq, Eq, Structural, Clone, Copy, Debug)]
pub enum WaitEvent {
    /// The probe ran: whether it connected.
    Probed(bool),
    /// The sleep is over.
    Slept,
    /// The wait is to be cut short (the user interrupted the program).
    Interrupted,
}

/// State of a wait: failed probes so far, and the result once it is over.
#[derive(PartialEq, Eq, Structural, Clone, Copy, Debug)]
pub struct PortWait {
    pub failed: u32,
    pub result: Option<bool>,
}

/// The next state and action after `e` in state `w`. A probe that connects
/// ends the wait; a failed one is counted and followed by a pause; after a
/// pause the address is probed again unless the tries are used up. An
/// interrupt ends the wait unanswered. Once over, the wait stays over.
pub open spec fn wait_step(w: PortWait, e: WaitEvent) -> (PortWait, WaitAction) {
    match w.result {
        Some(r) => (w, WaitAction::Finish(r)),
        None => match e {
            WaitEvent::Probed(true) => (PortWait { failed: w.failed, result: Some(true) }, WaitAction::Finish(true)),
            WaitEvent::Probed(false) => (
                PortWait {
                    failed: if w.failed < PORT_WAIT_TRIES { (w.failed + 1) as u32 } else { w.failed },
                    result: None,
                },
                WaitAction::Sleep(PORT_WAIT_PAUSE_MS),
            ),
            WaitEvent::Slept => if w.failed < PORT_WAIT_TRIES {
                (w, WaitAction::Probe)
            } else {
                (PortWait { failed: w.failed, result: Some(false) }, WaitAction::Finish(false))
            },
            WaitEvent::Interrupted => (PortWait { failed: w.failed, result: Some(false) }, WaitAction::Finish(false)),
        },
    }
}

/// The state a wait starts in.
pub open spec fn wait_start() -> PortWait {
    PortWait { failed: 0, result: None }
}

impl PortWait {
    /// Starts waiting: the first action is a probe.
    pub fn new() -> (res: (PortWait, WaitAction))
        ensures
            res.0 == wait_start(),
            res.1 == WaitAction::Probe,
    {
        (PortWait { failed: 0, result: None }, WaitAction::Probe)
    }

    /// Takes in what happened to the last action and returns the next one.
    pub fn step(&mut self, e: WaitEvent) -> (a: WaitAction)
        ensures
            (*final(self), a) == wait_step(*old(self), e),
    {
        match self.result {
            Some(r) => WaitAction::Finish(r),
            None => match e {
                WaitEvent::Probed(true) => {
                    self.result = Some(true);
                    WaitAction::Finish(true)
                },
                WaitEvent::Probed(false) => {
                    if self.failed < PORT_WAIT_TRIES {
                        self.failed = self.failed + 1;
                    }
                    WaitAction::Sleep(PORT_WAIT_PAUSE_MS)
                },
                WaitEvent::Slept => {
                    if self.failed < PORT_WAIT_TRIES {
                        WaitAction::Probe
                    } else {
                        self.result = Some(false);
                        WaitAction::Finish(false)
                    }
                },
                WaitEvent::Interrupted => {
                    self.result = Some(false);
                    WaitAction::Finish(false)
                },
            },
        }
    }
}

/// Runs a wait from state `w`, whose last action was `a`, against an
/// environment that answers the probes with `answers` in turn and ends every
/// sleep; at most `fuel` steps. Gives the result and the number of probes
/// made, or `None` when the steps or the answers run out first.
pub open spec fn drive_wait(w: PortWait, a: WaitAction, answers: Seq<bool>, fuel: nat) -> Option<(bool, nat)>
    decreases fuel,
{
    if fuel == 0 {
        None
    } else {
        match a {
            WaitAction::Finish(r) => Some((r, 0nat)),
            WaitAction::Probe => if answers.len() == 0 {
                None
            } else {
                let (w2, a2) = wait_step(w, WaitEvent::Probed(answers[0]));
                match drive_wait(w2, a2, answers.drop_first(), (fuel - 1) as nat) {
                    Some((r, n)) => Some((r, n + 1)),
                    None => None,
                }
            },
            WaitAction::Sleep(_) => {
                let (w2, a2) = wait_step(w, WaitEvent::Slept);
                drive_wait(w2, a2, answers, (fuel - 1) as nat)
            },
        }
    }
}

/// Among the first `tries` answers: whether one is `true`, and how many are
/// looked at up to and including the first `true` one (all `tries` when none is).
pub open spec fn first_success(answers: Seq<bool>, tries: nat) -> (bool, nat)
    decreases tries,
{
    if tries == 0 || answers.len() == 0 {
        (false, 0nat)
    } else if answers[0] {
        (true, 1nat)
    } else {
        let (r, n) = first_success(answers.drop_first(), (tries - 1) as nat);
        (r, n + 1)
    }
}

proof fn lemma_drive_from(k: nat, answers: Seq<bool>, fuel: nat)
    requires
        k < PORT_WAIT_TRIES,
        answers.len() >= PORT_WAIT_TRIES - k,
        fuel >= 2 * (PORT_WAIT_TRIES - k) + 1,
    ensures
        drive_wait(PortWait { failed: k as u32, result: None }, WaitAction::Probe, answers, fuel)
            == Some(first_success(answers, (PORT_WAIT_TRIES - k) as nat)),
    decreases PORT_WAIT_TRIES - k,
{
    let w = PortWait { failed: k as u32, result: None };
    let rest = answers.drop_first();
    if answers[0] {
        let (w2, a2) = wait_step(w, WaitEvent::Probed(true));
        assert(drive_wait(w2, a2, rest, (fuel - 1) as nat) == Some((true, 0nat)));
    } else {
        let (w2, a2) = wait_step(w, WaitEvent::Probed(false));
        assert(w2 == PortWait { failed: (k + 1) as u32, result: None });
        let (w3, a3) = wait_step(w2, WaitEvent::Slept);
        assert(drive_wait(w2, a2, rest, (fuel - 1) as nat) == drive_wait(w3, a3, rest, (fuel - 2) as nat));
        if k + 1 < PORT_WAIT_TRIES {
            lemma_drive_from(k + 1, rest, (fuel - 2) as nat);
        } else {
            assert(drive_wait(w3, a3, rest, (fuel - 2) as nat) == Some((false, 0nat)));
            assert(first_success(rest, 0) == (false, 0nat));
        }
    }
}

/// What [`first_success`] gives, spelled out: whether some of the first
/// `tries` answers is `true`, and where the first one is.
pub proof fn lemma_first_success_meaning(answers: Seq<bool>, tries: nat)
    requires
        answers.len() >= tries,
    ensures
        first_success(answers, tries).0 <==> exists|i: int| 0 <= i < tries && answers[i],
        first_success(answers, tries).1 <= tries,
        first_success(answers, tries).0 ==> ({
            let n = first_success(answers, tries).1;
            &&& n >= 1
            &&& answers[n - 1]
            &&& forall|j: int| 0 <= j < n - 1 ==> !answers[j]
        }),
        !first_success(answers, tries).0 ==> first_success(answers, tries).1 == tries,
    decreases tries,
{
    if tries == 0 || answers.len() == 0 {
    } else if answers[0] {
    } else {
        let rest = answers.drop_first();
        lemma_first_success_meaning(rest, (tries - 1) as nat);
        if first_success(rest, (tries - 1) as nat).0 {
            let i = choose|i: int| 0 <= i < tries - 1 && rest[i];
            assert(answers[i + 1]);
        } else {
            assert forall|i: int| 0 <= i < tries implies !answers[i] by {
                if i > 0 {
                    assert(answers[i] == rest[i - 1]);
                }
            }
        }
        let n = first_success(answers, tries).1;
        if first_success(answers, tries).0 {
            assert forall|j: int| 0 <= j < n - 1 implies !answers[j] by {
                if j > 0 {
                    assert(answers[j] == rest[j - 1]);
                }
            }
        }
    }
}

/// A wait answered with `answers` ends within 241 steps; it reports the
/// address ready exactly when one of the first 120 probes connects, it never
/// probes more than 120 times, it stops probing at the first probe that
/// connects, and when none does it gives up after exactly 120 probes.
pub proof fn lemma_port_wait_outcome(answers: Seq<bool>)
    requires
        answers.len() >= PORT_WAIT_TRIES,
    ensures
        match drive_wait(wait_start(), WaitAction::Probe, answers, (2 * PORT_WAIT_TRIES + 1) as nat) {
            Some((ready, probes)) => {
                &&& (ready <==> exists|i: int| 0 <= i < PORT_WAIT_TRIES && answers[i])
                &&& probes <= PORT_WAIT_TRIES
                &&& ready ==> (probes >= 1 && answers[probes - 1] && forall|j: int|
                    0 <= j < probes - 1 ==> !answers[j])
                &&& !ready ==> probes == PORT_WAIT_TRIES
            },
            None => false,
        },
{
    lemma_drive_from(0, answers, (2 * PORT_WAIT_TRIES + 1) as nat);
    lemma_first_success_meaning(answers, PORT_WAIT_TRIES as nat);
}

} // verus!
