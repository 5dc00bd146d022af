//! Start-up of the desktop window. When the engine of an instance already
//! answers, this launch starts nothing: it only brings that instance's
//! console to the front. Otherwise it announces the start, runs the
//! launcher's start-up (which hands over each process group it starts, to be
//! stopped on exit, as soon as it starts it), and shows the console page once
//! it is ready. The decisions are a state machine; the window shell performs
//! each action and reports back.
use vstd::prelude::*;
use crate::command::{CommandSpec, CommandView, CONSOLE_URL, CORE_ADDR, notify, spec_notify};

verus! {

pub const STARTING_TITLE: &'static str = "brainmux başlatılıyor";
pub const STARTING_BODY: &'static str = "Yerel motor hazırlanıyor…";
pub const READY_TITLE: &'static str = "brainmux hazır";
pub const READY_BODY: &'static str = "Konsol açılıyor…";

/// What the window shell is asked to do next.
#[derive(Debug)]
pub enum DesktopAction {
    /// Check whether the address accepts a connection; report the answer.
    ProbePort(String),
    /// An instance already runs: bring its console (at this URL) to the
    /// front instead of starting a duplicate.
    FocusExisting(String),
    /// Start a command, ignoring whether it could be started.
    Run(CommandSpec),
    /// Run the launcher's start-up (see `launcher`); report whether the
    /// console is ready.
    Start,
    /// Show this URL (the console page) in the window.
    Navigate(String),
    /// Start-up of the window is over.
    Done,
}

/// The mathematical model of a [`DesktopAction`].
pub enum DesktopActionView {
    ProbePort(Seq<char>),
    FocusExisting(Seq<char>),
    Run(CommandView),
    Start,
    Navigate(Seq<char>),
    Done,
}

impl View for DesktopAction {
    type V = DesktopActionView;

    open spec fn view(&self) -> DesktopActionView {
        match self {
            DesktopAction::ProbePort(a) => DesktopActionView::ProbePort(a@),
            DesktopAction::FocusExisting(u) => DesktopActionView::FocusExisting(u@),
            DesktopAction::Run(c) => DesktopActionView::Run(c@),
            DesktopAction::Start => DesktopActionView::Start,
            DesktopAction::Navigate(u) => DesktopActionView::Navigate(u@),
            DesktopAction::Done => DesktopActionView::Done,
        }
    }
}

/// What happened to the last action.
#[derive(Debug)]
pub enum DesktopEvent {
    /// The probe ran: whether the address accepted the connection.
    Probed(bool),
    /// Start-up ran: whether the console is ready.
    Started(bool),
    /// Any other action is over.
    Completed,
}

/// The mathematical model of a [`DesktopEvent`].
pub enum DesktopEventView {
    Probed(bool),
    Started(bool),
    Completed,
}

impl View for DesktopEvent {
    type V = DesktopEventView;

    open spec fn view(&self) -> DesktopEventView {
        match self {
            DesktopEvent::Probed(b) => DesktopEventView::Probed(*b),
            DesktopEvent::Started(r) => DesktopEventView::Started(*r),
            DesktopEvent::Completed => DesktopEventView::Completed,
        }
    }
}

/// Which action was issued last.
#[derive(PartialEq, Eq, Structural, Clone, Copy, Debug)]
pub enum DesktopPhase {
    ProbingCore,
    FocusingExisting,
    AnnouncedStart,
    Starting,
    AnnouncedReady,
    Navigating,
    Finished,
}

/// The answer a probe gave; any other event counts as a negative answer.
pub open spec fn probe_answer(e: DesktopEventView) -> bool {
    match e {
        DesktopEventView::Probed(b) => b,
        _ => false,
    }
}

/// Whether start-up reported the console ready; any other event counts as not.
pub open spec fn started_ready(e: DesktopEventView) -> bool {
    match e {
        DesktopEventView::Started(r) => r,
        _ => false,
    }
}

/// The next phase and action after `e` in phase `p`.
pub open spec fn desktop_step(p: DesktopPhase, e: DesktopEventView) -> (DesktopPhase, DesktopActionView) {
    match p {
        DesktopPhase::ProbingCore => if probe_answer(e) {
            (DesktopPhase::FocusingExisting, DesktopActionView::FocusExisting(CONSOLE_URL@))
        } else {
            (DesktopPhase::AnnouncedStart, DesktopActionView::Run(spec_notify(STARTING_TITLE@, STARTING_BODY@)))
        },
        DesktopPhase::FocusingExisting => (DesktopPhase::Finished, DesktopActionView::Done),
        DesktopPhase::AnnouncedStart => (DesktopPhase::Starting, DesktopActionView::Start),
        DesktopPhase::Starting => if started_ready(e) {
            (DesktopPhase::AnnouncedReady, DesktopActionView::Run(spec_notify(READY_TITLE@, READY_BODY@)))
        } else {
            (DesktopPhase::Finished, DesktopActionView::Done)
        },
        DesktopPhase::AnnouncedReady => (DesktopPhase::Navigating, DesktopActionView::Navigate(CONSOLE_URL@)),
        DesktopPhase::Navigating => (DesktopPhase::Finished, DesktopActionView::Done),
        DesktopPhase::Finished => (DesktopPhase::Finished, DesktopActionView::Done),
    }
}

/// Start-up of the window in progress.
#[derive(Debug)]
pub struct DesktopLaunch {
    pub phase: DesktopPhase,
}

/// Begins start-up of the window: the first action checks whether the
/// engine already answers.
pub fn desktop_launch() -> (res: (DesktopLaunch, DesktopAction))
    ensures
        res.0.phase == DesktopPhase::ProbingCore,
        res.1@ == DesktopActionView::ProbePort(CORE_ADDR@),
{
    (DesktopLaunch { phase: DesktopPhase::ProbingCore }, DesktopAction::ProbePort(String::from_str(CORE_ADDR)))
}

impl DesktopLaunch {
    /// Takes in what happened to the last action and returns the next one.
    pub fn step(&mut self, e: DesktopEvent) -> (a: DesktopAction)
        ensures
            final(self).phase == desktop_step(old(self).phase, e@).0,
            a@ == desktop_step(old(self).phase, e@).1,
    {
        match self.phase {
            DesktopPhase::ProbingCore => {
                let up = match e {
                    DesktopEvent::Probed(b) => b,
                    _ => false,
                };
                if up {
                    self.phase = DesktopPhase::FocusingExisting;
                    DesktopAction::FocusExisting(String::from_str(CONSOLE_URL))
                } else {
                    self.phase = DesktopPhase::AnnouncedStart;
                    DesktopAction::Run(notify(STARTING_TITLE, STARTING_BODY))
                }
            },
            DesktopPhase::FocusingExisting => {
                self.phase = DesktopPhase::Finished;
                DesktopAction::Done
            },
            DesktopPhase::AnnouncedStart => {
                self.phase = DesktopPhase::Starting;
                DesktopAction::Start
            },
            DesktopPhase::Starting => {
                let ready = match e {
                    DesktopEvent::Started(r) => r,
                    _ => false,
                };
                if ready {
                    self.phase = DesktopPhase::AnnouncedReady;
                    DesktopAction::Run(notify(READY_TITLE, READY_BODY))
                } else {
                    self.phase = DesktopPhase::Finished;
                    DesktopAction::Done
                }
            },
            DesktopPhase::AnnouncedReady => {
                self.phase = DesktopPhase::Navigating;
                DesktopAction::Navigate(String::from_str(CONSOLE_URL))
            },
            DesktopPhase::Navigating => {
                self.phase = DesktopPhase::Finished;
                DesktopAction::Done
            },
            DesktopPhase::Finished => DesktopAction::Done,
        }
    }
}

/// Feeds `events` to the window's start-up in phase `p`, one per step: the
/// phase it ends in and the actions it issues.
pub open spec fn run_desktop(p: DesktopPhase, events: Seq<DesktopEventView>) -> (DesktopPhase, Seq<DesktopActionView>)
    decreases events.len(),
{
    if events.len() == 0 {
        (p, Seq::empty())
    } else {
        let (p2, a) = desktop_step(p, events[0]);
        let (p3, rest) = run_desktop(p2, events.drop_first());
        (p3, seq![a] + rest)
    }
}

/// An action that starts something: the launcher's start-up or a command.
pub open spec fn starts_something(a: DesktopActionView) -> bool {
    a is Start || a is Run
}

proof fn lemma_after_focus_nothing_starts(p: DesktopPhase, events: Seq<DesktopEventView>)
    requires
        p == DesktopPhase::FocusingExisting || p == DesktopPhase::Finished,
    ensures
        forall|i: int| 0 <= i < run_desktop(p, events).1.len() ==> !starts_something(#[trigger] run_desktop(p, events).1[i]),
    decreases events.len(),
{
    if events.len() > 0 {
        let (p2, a) = desktop_step(p, events[0]);
        lemma_after_focus_nothing_starts(p2, events.drop_first());
        let t = run_desktop(p2, events.drop_first()).1;
        assert forall|i: int| 0 <= i < (seq![a] + t).len() implies !starts_something(#[trigger] (seq![a] + t)[i]) by {
            if i > 0 {
                assert((seq![a] + t)[i] == t[i - 1]);
            }
        }
    }
}

/// No duplicate: when the engine of an instance already answers, this launch
/// brings that instance's console to the front and, whatever happens next,
/// never runs the launcher's start-up nor any command.
pub proof fn lemma_running_engine_starts_no_duplicate(events: Seq<DesktopEventView>)
    ensures
        desktop_step(DesktopPhase::ProbingCore, DesktopEventView::Probed(true)) == (
            DesktopPhase::FocusingExisting,
            DesktopActionView::FocusExisting(CONSOLE_URL@),
        ),
        ({
            let t = run_desktop(DesktopPhase::ProbingCore, seq![DesktopEventView::Probed(true)] + events).1;
            &&& t[0] == DesktopActionView::FocusExisting(CONSOLE_URL@)
            &&& forall|i: int| 0 <= i < t.len() ==> !starts_something(#[trigger] t[i])
        }),
{
    let evs = seq![DesktopEventView::Probed(true)] + events;
    assert(evs.drop_first() =~= events);
    lemma_after_focus_nothing_starts(DesktopPhase::FocusingExisting, events);
    let rest = run_desktop(DesktopPhase::FocusingExisting, events).1;
    let t = run_desktop(DesktopPhase::ProbingCore, evs).1;
    assert(t == seq![DesktopActionView::FocusExisting(CONSOLE_URL@)] + rest);
    assert forall|i: int| 0 <= i < t.len() implies !starts_something(#[trigger] t[i]) by {
        if i > 0 {
            assert(t[i] == rest[i - 1]);
        }
    }
}

/// A launch that finds no engine answering announces the start, runs the
/// start-up once, and, exactly when start-up reports the console ready,
/// announces that and shows the console page in the window.
pub proof fn lemma_first_launch_starts_once(ready: bool)
    ensures
        ({
            let events = seq![DesktopEventView::Probed(false), DesktopEventView::Completed, DesktopEventView::Started(ready)]
                + if ready {
                seq![DesktopEventView::Completed, DesktopEventView::Completed]
            } else {
                Seq::empty()
            };
            run_desktop(DesktopPhase::ProbingCore, events) == (
                DesktopPhase::Finished,
                seq![
                    DesktopActionView::Run(spec_notify(STARTING_TITLE@, STARTING_BODY@)),
                    DesktopActionView::Start,
                ] + if ready {
                    seq![
                        DesktopActionView::Run(spec_notify(READY_TITLE@, READY_BODY@)),
                        DesktopActionView::Navigate(CONSOLE_URL@),
                        DesktopActionView::Done,
                    ]
                } else {
                    seq![DesktopActionView::Done]
                },
            )
        }),
{
    reveal_with_fuel(run_desktop, 6);
    let events = seq![DesktopEventView::Probed(false), DesktopEventView::Completed, DesktopEventView::Started(ready)]
        + if ready {
        seq![DesktopEventView::Completed, DesktopEventView::Completed]
    } else {
        Seq::empty()
    };
    let expected = seq![
        DesktopActionView::Run(spec_notify(STARTING_TITLE@, STARTING_BODY@)),
        DesktopActionView::Start,
    ] + if ready {
        seq![
            DesktopActionView::Run(spec_notify(READY_TITLE@, READY_BODY@)),
            DesktopActionView::Navigate(CONSOLE_URL@),
            DesktopActionView::Done,
        ]
    } else {
        seq![DesktopActionView::Done]
    };
    let (p, t) = run_desktop(DesktopPhase::ProbingCore, events);
    assert(t =~= expected);
}

} // verus!
