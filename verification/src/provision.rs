//! Zero-state provisioning of the local AI runtime: make sure the Ollama
//! daemon is up (starting it and waiting for it when it is not) and that the
//! embedding model is present (pulling it when it is not). The decisions are
//! a state machine; the application performs each action and reports back.
use vstd::prelude::*;
use crate::command::{CommandSpec, CommandView, notify, ollama_serve_command, spec_notify, spec_quiet_command};
use crate::models::MODEL;
use crate::port_wait::{first_success, lemma_first_success_meaning};

verus! {

/// Pauses while waiting for a freshly started daemon.
pub const OLLAMA_RETRIES: u32 = 20;

/// Length of each of those pauses, in milliseconds.
pub const OLLAMA_PAUSE_MS: u64 = 500;

pub const PROVISION_HEADER: &'static str = "3/4 eksikler kuruluyor (zero-state)…";
pub const OLLAMA_STARTING: &'static str = "  Ollama başlatılıyor…";
pub const OLLAMA_NOT_UP: &'static str = "  UYARI: Ollama başlamadı (kurulu mu?)";
pub const PULL_NOTICE_TITLE: &'static str = "brainmux — ilk kurulum";
pub const PULL_NOTICE_BODY: &'static str = "Yapay zeka modeli iniyor (~1GB, birkaç dakika)…";
pub const PROVISION_READY: &'static str = "  hazır ✓";

/// The log line announcing the model download.
pub open spec fn pull_log_line() -> Seq<char> {
    "  "@ + MODEL@ + " indiriliyor (ilk sefer, ~1GB)…"@
}

/// What the application is asked to do next.
#[derive(Debug)]
pub enum ProvisionAction {
    /// Print a log line.
    Log(String),
    /// Start a command, ignoring whether it could be started.
    Run(CommandSpec),
    /// Ask the daemon whether it is up.
    ProbeOllama,
    /// Ask the daemon whether the model is present.
    ProbeModel,
    /// Sleep for the given number of milliseconds.
    Sleep(u64),
    /// Ask the daemon to pull the named model, showing its progress.
    PullModel(String),
    /// Provisioning is over.
    Done,
}

/// The mathematical model of a [`ProvisionAction`].
pub enum ProvisionActionView {
    Log(Seq<char>),
    Run(CommandView),
    ProbeOllama,
    ProbeModel,
    Sleep(u64),
    PullModel(Seq<char>),
    Done,
}

impl View for ProvisionAction {
    type V = ProvisionActionView;

    open spec fn view(&self) -> ProvisionActionView {
        match self {
            ProvisionAction::Log(s) => ProvisionActionView::Log(s@),
            ProvisionAction::Run(c) => ProvisionActionView::Run(c@),
            ProvisionAction::ProbeOllama => ProvisionActionView::ProbeOllama,
            ProvisionAction::ProbeModel => ProvisionActionView::ProbeModel,
            ProvisionAction::Sleep(ms) => ProvisionActionView::Sleep(*ms),
            ProvisionAction::PullModel(m) => ProvisionActionView::PullModel(m@),
            ProvisionAction::Done => ProvisionActionView::Done,
        }
    }
}

/// What happened to the last action.
#[derive(PartialEq, Eq, Structural, Clone, Copy, Debug)]
pub enum ProvisionEvent {
    /// A probe ran: whether the daemon is up, or whether the model is present.
    Probed(bool),
    /// Any other action is over.
    Completed,
}

/// Where provisioning stands: which action was issued last.
#[derive(PartialEq, Eq, Structural, Clone, Copy, Debug)]
pub enum ProvisionPhase {
    /// Logged the header.
    Header,
    /// Probing the daemon for the first time.
    FirstProbe,
    /// Logged that the daemon is being started.
    StartingLog,
    /// Started the daemon.
    Serving,
    /// In the given pause (counted from 1) while the daemon comes up.
    Pausing(u32),
    /// Probing the daemon after the given number of pauses.
    Retrying(u32),
    /// Logged that the daemon did not come up.
    Warned,
    /// Probing for the model.
    ModelProbe,
    /// Logged that the model is being downloaded.
    PullLog,
    /// Showed the download notification.
    PullNotice,
    /// Pulling the model.
    Pulling,
    /// Logged that provisioning is over.
    ReadyLog,
    /// Provisioning is over.
    Finished,
}

/// The answer a probe gave; any other event counts as a negative answer.
pub open spec fn answer(e: ProvisionEvent) -> bool {
    match e {
        ProvisionEvent::Probed(b) => b,
        ProvisionEvent::Completed => false,
    }
}

/// The next phase and action after `e` in phase `p`.
pub open spec fn provision_step(p: ProvisionPhase, e: ProvisionEvent) -> (ProvisionPhase, ProvisionActionView) {
    match p {
        ProvisionPhase::Header => (ProvisionPhase::FirstProbe, ProvisionActionView::ProbeOllama),
        ProvisionPhase::FirstProbe => if answer(e) {
            (ProvisionPhase::ModelProbe, ProvisionActionView::ProbeModel)
        } else {
            (ProvisionPhase::StartingLog, ProvisionActionView::Log(OLLAMA_STARTING@))
        },
        ProvisionPhase::StartingLog => (
            ProvisionPhase::Serving,
            ProvisionActionView::Run(spec_quiet_command("ollama"@, "serve"@)),
        ),
        ProvisionPhase::Serving => (ProvisionPhase::Pausing(1), ProvisionActionView::Sleep(OLLAMA_PAUSE_MS)),
        ProvisionPhase::Pausing(k) => (ProvisionPhase::Retrying(k), ProvisionActionView::ProbeOllama),
        ProvisionPhase::Retrying(k) => if answer(e) {
            (ProvisionPhase::ModelProbe, ProvisionActionView::ProbeModel)
        } else if k < OLLAMA_RETRIES {
            (ProvisionPhase::Pausing((k + 1) as u32), ProvisionActionView::Sleep(OLLAMA_PAUSE_MS))
        } else {
            (ProvisionPhase::Warned, ProvisionActionView::Log(OLLAMA_NOT_UP@))
        },
        ProvisionPhase::Warned => (ProvisionPhase::ModelProbe, ProvisionActionView::ProbeModel),
        ProvisionPhase::ModelProbe => if answer(e) {
            (ProvisionPhase::ReadyLog, ProvisionActionView::Log(PROVISION_READY@))
        } else {
            (ProvisionPhase::PullLog, ProvisionActionView::Log(pull_log_line()))
        },
        ProvisionPhase::PullLog => (
            ProvisionPhase::PullNotice,
            ProvisionActionView::Run(spec_notify(PULL_NOTICE_TITLE@, PULL_NOTICE_BODY@)),
        ),
        ProvisionPhase::PullNotice => (ProvisionPhase::Pulling, ProvisionActionView::PullModel(MODEL@)),
        ProvisionPhase::Pulling => (ProvisionPhase::ReadyLog, ProvisionActionView::Log(PROVISION_READY@)),
        ProvisionPhase::ReadyLog => (ProvisionPhase::Finished, ProvisionActionView::Done),
        ProvisionPhase::Finished => (ProvisionPhase::Finished, ProvisionActionView::Done),
    }
}

/// A provisioning run in progress.
#[derive(Debug)]
pub struct AutoProvision {
    pub phase: ProvisionPhase,
}

fn log_line(s: &str) -> (a: ProvisionAction)
    ensures
        a@ == ProvisionActionView::Log(s@),
{
    ProvisionAction::Log(String::from_str(s))
}

/// Starts provisioning: the first action logs the header.
pub fn auto_provision() -> (res: (AutoProvision, ProvisionAction))
    ensures
        res.0.phase == ProvisionPhase::Header,
        res.1@ == ProvisionActionView::Log(PROVISION_HEADER@),
{
    (AutoProvision { phase: ProvisionPhase::Header }, log_line(PROVISION_HEADER))
}

impl AutoProvision {
    /// Takes in what happened to the last action and returns the next one.
    pub fn step(&mut self, e: ProvisionEvent) -> (a: ProvisionAction)
        ensures
            (final(self).phase, a@) == provision_step(old(self).phase, e),
    {
        let yes = match e {
            ProvisionEvent::Probed(b) => b,
            ProvisionEvent::Completed => false,
        };
        match self.phase {
            ProvisionPhase::Header => {
                self.phase = ProvisionPhase::FirstProbe;
                ProvisionAction::ProbeOllama
            },
            ProvisionPhase::FirstProbe => {
                if yes {
                    self.phase = ProvisionPhase::ModelProbe;
                    ProvisionAction::ProbeModel
                } else {
                    self.phase = ProvisionPhase::StartingLog;
                    log_line(OLLAMA_STARTING)
                }
            },
            ProvisionPhase::StartingLog => {
                self.phase = ProvisionPhase::Serving;
                ProvisionAction::Run(ollama_serve_command())
            },
            ProvisionPhase::Serving => {
                self.phase = ProvisionPhase::Pausing(1);
                ProvisionAction::Sleep(OLLAMA_PAUSE_MS)
            },
            ProvisionPhase::Pausing(k) => {
                self.phase = ProvisionPhase::Retrying(k);
                ProvisionAction::ProbeOllama
            },
            ProvisionPhase::Retrying(k) => {
                if yes {
                    self.phase = ProvisionPhase::ModelProbe;
                    ProvisionAction::ProbeModel
                } else if k < OLLAMA_RETRIES {
                    self.phase = ProvisionPhase::Pausing(k + 1);
                    ProvisionAction::Sleep(OLLAMA_PAUSE_MS)
                } else {
                    self.phase = ProvisionPhase::Warned;
                    log_line(OLLAMA_NOT_UP)
                }
            },
            ProvisionPhase::Warned => {
                self.phase = ProvisionPhase::ModelProbe;
                ProvisionAction::ProbeModel
            },
            ProvisionPhase::ModelProbe => {
                if yes {
                    self.phase = ProvisionPhase::ReadyLog;
                    log_line(PROVISION_READY)
                } else {
                    self.phase = ProvisionPhase::PullLog;
                    let line = String::from_str("  ").concat(MODEL).concat(
                        " indiriliyor (ilk sefer, ~1GB)…",
                    );
                    ProvisionAction::Log(line)
                }
            },
            ProvisionPhase::PullLog => {
                self.phase = ProvisionPhase::PullNotice;
                ProvisionAction::Run(notify(PULL_NOTICE_TITLE, PULL_NOTICE_BODY))
            },
            ProvisionPhase::PullNotice => {
                self.phase = ProvisionPhase::Pulling;
                ProvisionAction::PullModel(String::from_str(MODEL))
            },
            ProvisionPhase::Pulling => {
                self.phase = ProvisionPhase::ReadyLog;
                log_line(PROVISION_READY)
            },
            ProvisionPhase::ReadyLog => {
                self.phase = ProvisionPhase::Finished;
                ProvisionAction::Done
            },
            ProvisionPhase::Finished => ProvisionAction::Done,
        }
    }
}

/// What a provisioning run did: how often it started the daemon, probed the
/// daemon, probed for the model and pulled the model.
pub struct ProvisionTally {
    pub serve_runs: nat,
    pub ollama_probes: nat,
    pub model_probes: nat,
    pub pulls: nat,
}

/// The tally of a single action.
pub open spec fn tally_of(a: ProvisionActionView) -> ProvisionTally {
    ProvisionTally {
        serve_runs: if a == ProvisionActionView::Run(spec_quiet_command("ollama"@, "serve"@)) { 1 } else { 0 },
        ollama_probes: if a is ProbeOllama { 1 } else { 0 },
        model_probes: if a is ProbeModel { 1 } else { 0 },
        pulls: if a is PullModel { 1 } else { 0 },
    }
}

pub open spec fn tally_add(x: ProvisionTally, y: ProvisionTally) -> ProvisionTally {
    ProvisionTally {
        serve_runs: x.serve_runs + y.serve_runs,
        ollama_probes: x.ollama_probes + y.ollama_probes,
        model_probes: x.model_probes + y.model_probes,
        pulls: x.pulls + y.pulls,
    }
}

/// A phase that waits for a probe's answer.
pub open spec fn probing(p: ProvisionPhase) -> bool {
    p is FirstProbe || p is Retrying || p is ModelProbe
}

/// Runs provisioning from phase `p` against an environment that answers the
/// probes with `answers` in turn and completes every other action; at most
/// `fuel` steps. Gives the tally of the actions issued until it is over, or
/// `None` when the steps or the answers run out first.
pub open spec fn drive_provision(p: ProvisionPhase, answers: Seq<bool>, fuel: nat) -> Option<ProvisionTally>
    decreases fuel,
{
    if p is Finished {
        Some(ProvisionTally { serve_runs: 0, ollama_probes: 0, model_probes: 0, pulls: 0 })
    } else if fuel == 0 {
        None
    } else if probing(p) {
        if answers.len() == 0 {
            None
        } else {
            let (p2, a) = provision_step(p, ProvisionEvent::Probed(answers[0]));
            match drive_provision(p2, answers.drop_first(), (fuel - 1) as nat) {
                Some(t) => Some(tally_add(tally_of(a), t)),
                None => None,
            }
        }
    } else {
        let (p2, a) = provision_step(p, ProvisionEvent::Completed);
        match drive_provision(p2, answers, (fuel - 1) as nat) {
            Some(t) => Some(tally_add(tally_of(a), t)),
            None => None,
        }
    }
}

/// Steps that bound a provisioning run.
pub open spec fn provision_fuel() -> nat {
    64
}

proof fn lemma_serve_is_not_other_actions()
    ensures
        spec_quiet_command("ollama"@, "serve"@) != spec_notify(PULL_NOTICE_TITLE@, PULL_NOTICE_BODY@),
{
    reveal_strlit("ollama");
    reveal_strlit("notify-send");
    assert(spec_quiet_command("ollama"@, "serve"@).program.len() != spec_notify(
        PULL_NOTICE_TITLE@,
        PULL_NOTICE_BODY@,
    ).program.len());
}

proof fn lemma_from_model_probe(answers: Seq<bool>, fuel: nat)
    requires
        answers.len() >= 1,
        fuel >= 5,
    ensures
        drive_provision(ProvisionPhase::ModelProbe, answers, fuel) == Some(
            ProvisionTally { serve_runs: 0, ollama_probes: 0, model_probes: 0, pulls: if answers[0] { 0 } else { 1 } },
        ),
{
    lemma_serve_is_not_other_actions();
    let rest = answers.drop_first();
    if answers[0] {
        assert(drive_provision(ProvisionPhase::Finished, rest, (fuel - 2) as nat) == Some(
            ProvisionTally { serve_runs: 0, ollama_probes: 0, model_probes: 0, pulls: 0 },
        ));
        assert(drive_provision(ProvisionPhase::ReadyLog, rest, (fuel - 1) as nat) == Some(
            ProvisionTally { serve_runs: 0, ollama_probes: 0, model_probes: 0, pulls: 0 },
        ));
    } else {
        assert(drive_provision(ProvisionPhase::Finished, rest, (fuel - 5) as nat) == Some(
            ProvisionTally { serve_runs: 0, ollama_probes: 0, model_probes: 0, pulls: 0 },
        ));
        assert(drive_provision(ProvisionPhase::ReadyLog, rest, (fuel - 4) as nat) == Some(
            ProvisionTally { serve_runs: 0, ollama_probes: 0, model_probes: 0, pulls: 0 },
        ));
        assert(drive_provision(ProvisionPhase::Pulling, rest, (fuel - 3) as nat) == Some(
            ProvisionTally { serve_runs: 0, ollama_probes: 0, model_probes: 0, pulls: 0 },
        ));
        assert(drive_provision(ProvisionPhase::PullNotice, rest, (fuel - 2) as nat) == Some(
            ProvisionTally { serve_runs: 0, ollama_probes: 0, model_probes: 0, pulls: 1 },
        ));
        assert(drive_provision(ProvisionPhase::PullLog, rest, (fuel - 1) as nat) == Some(
            ProvisionTally { serve_runs: 0, ollama_probes: 0, model_probes: 0, pulls: 1 },
        ));
    }
}

proof fn lemma_from_pause(k: nat, answers: Seq<bool>, fuel: nat)
    requires
        1 <= k <= OLLAMA_RETRIES,
        answers.len() >= OLLAMA_RETRIES + 2 - k,
        fuel >= 2 * (OLLAMA_RETRIES + 1 - k) + 6,
    ensures
        ({
            let n = first_success(answers, (OLLAMA_RETRIES + 1 - k) as nat).1;
            drive_provision(ProvisionPhase::Pausing(k as u32), answers, fuel) == Some(
                ProvisionTally {
                    serve_runs: 0,
                    ollama_probes: n,
                    model_probes: 1,
                    pulls: if answers[n as int] { 0 } else { 1 },
                },
            )
        }),
    decreases OLLAMA_RETRIES - k,
{
    lemma_serve_is_not_other_actions();
    let rest = answers.drop_first();
    let tries = (OLLAMA_RETRIES + 1 - k) as nat;
    assert(drive_provision(ProvisionPhase::Pausing(k as u32), answers, fuel) == match drive_provision(
        ProvisionPhase::Retrying(k as u32),
        answers,
        (fuel - 1) as nat,
    ) {
        Some(t) => Some(tally_add(tally_of(ProvisionActionView::ProbeOllama), t)),
        None => None,
    });
    if answers[0] {
        lemma_from_model_probe(rest, (fuel - 2) as nat);
        let t = drive_provision(ProvisionPhase::ModelProbe, rest, (fuel - 2) as nat)->0;
        assert(drive_provision(ProvisionPhase::Retrying(k as u32), answers, (fuel - 1) as nat) == Some(
            tally_add(tally_of(ProvisionActionView::ProbeModel), t),
        ));
        assert(first_success(answers, tries) == (true, 1nat));
        assert(answers[1] == rest[0]);
    } else if k < OLLAMA_RETRIES {
        lemma_from_pause(k + 1, rest, (fuel - 2) as nat);
        lemma_first_success_meaning(rest, (OLLAMA_RETRIES + 1 - (k + 1)) as nat);
        let t = drive_provision(ProvisionPhase::Pausing((k + 1) as u32), rest, (fuel - 2) as nat)->0;
        assert(drive_provision(ProvisionPhase::Retrying(k as u32), answers, (fuel - 1) as nat) == Some(
            tally_add(tally_of(ProvisionActionView::Sleep(OLLAMA_PAUSE_MS)), t),
        ));
        let m = first_success(rest, (OLLAMA_RETRIES + 1 - (k + 1)) as nat).1;
        assert(first_success(answers, tries).1 == m + 1);
        assert(answers[(m + 1) as int] == rest[m as int]);
    } else {
        lemma_from_model_probe(rest, (fuel - 3) as nat);
        let t = drive_provision(ProvisionPhase::ModelProbe, rest, (fuel - 3) as nat)->0;
        assert(drive_provision(ProvisionPhase::Warned, rest, (fuel - 2) as nat) == Some(
            tally_add(tally_of(ProvisionActionView::ProbeModel), t),
        ));
        assert(drive_provision(ProvisionPhase::Retrying(k as u32), answers, (fuel - 1) as nat) == Some(
            tally_add(tally_of(ProvisionActionView::Log(OLLAMA_NOT_UP@)), tally_add(tally_of(ProvisionActionView::ProbeModel), t)),
        ));
        assert(first_success(rest, 0) == (false, 0nat));
        assert(first_success(answers, tries).1 == 1);
        assert(answers[1] == rest[0]);
    }
}

/// A provisioning run answered with `answers` (the daemon's and then the
/// model's probe results, in the order the probes are made) is over within 64
/// steps. It starts the daemon exactly when the first probe finds it down,
/// and then at most once; it probes the daemon at most 21 times, and again
/// after the first probe only until a probe finds it up; it probes for the
/// model exactly once, and pulls the model exactly when that probe finds it
/// missing.
pub proof fn lemma_auto_provision_run(answers: Seq<bool>)
    requires
        answers.len() >= OLLAMA_RETRIES + 2,
    ensures
        match drive_provision(ProvisionPhase::Header, answers, provision_fuel()) {
            Some(t) => {
                &&& t.serve_runs == if answers[0] { 0nat } else { 1nat }
                &&& answers[0] ==> t.ollama_probes == 1
                &&& !answers[0] ==> t.ollama_probes == 1 + first_success(answers.drop_first(), OLLAMA_RETRIES as nat).1
                &&& 1 <= t.ollama_probes <= OLLAMA_RETRIES + 1
                &&& t.model_probes == 1
                &&& t.pulls == if answers[t.ollama_probes as int] { 0nat } else { 1nat }
            },
            None => false,
        },
{
    lemma_serve_is_not_other_actions();
    let fuel = provision_fuel();
    let rest = answers.drop_first();
    if answers[0] {
        lemma_from_model_probe(rest, (fuel - 2) as nat);
        let t = drive_provision(ProvisionPhase::ModelProbe, rest, (fuel - 2) as nat)->0;
        assert(drive_provision(ProvisionPhase::FirstProbe, answers, (fuel - 1) as nat) == Some(
            tally_add(tally_of(ProvisionActionView::ProbeModel), t),
        ));
        assert(answers[1] == rest[0]);
    } else {
        lemma_from_pause(1, rest, (fuel - 4) as nat);
        lemma_first_success_meaning(rest, OLLAMA_RETRIES as nat);
        let t = drive_provision(ProvisionPhase::Pausing(1), rest, (fuel - 4) as nat)->0;
        let serve = ProvisionActionView::Run(spec_quiet_command("ollama"@, "serve"@));
        assert(tally_of(serve).serve_runs == 1);
        assert(drive_provision(ProvisionPhase::Serving, rest, (fuel - 3) as nat) == Some(
            tally_add(tally_of(ProvisionActionView::Sleep(OLLAMA_PAUSE_MS)), t),
        ));
        assert(drive_provision(ProvisionPhase::StartingLog, rest, (fuel - 2) as nat) == Some(
            tally_add(tally_of(serve), tally_add(tally_of(ProvisionActionView::Sleep(OLLAMA_PAUSE_MS)), t)),
        ));
        let n = first_success(rest, OLLAMA_RETRIES as nat).1;
        assert(answers[(n + 1) as int] == rest[n as int]);
    }
}

/// The state report's line on the daemon.
pub open spec fn spec_ollama_state_line(ollama_up: bool) -> Seq<char> {
    "  ollama: "@ + if ollama_up { "çalışıyor"@ } else { "kapalı → kurulacak"@ }
}

/// The state report's line on the model.
pub open spec fn spec_model_state_line(model_present: bool) -> Seq<char> {
    "  model "@ + MODEL@ + ": "@ + if model_present { "var"@ } else { "yok → inecek"@ }
}

/// The state report printed before provisioning: whether the daemon is up and
/// whether the model is present.
pub open spec fn spec_state_check(ollama_up: bool, model_present: bool) -> Seq<Seq<char>> {
    seq![
        STATE_CHECK_HEADER@,
        spec_ollama_state_line(ollama_up),
        spec_model_state_line(model_present),
    ]
}

pub const STATE_CHECK_HEADER: &'static str = "2/4 durum denetimi…";

/// The state report's line on the daemon.
pub fn ollama_state_line(ollama_up: bool) -> (line: String)
    ensures
        line@ == spec_ollama_state_line(ollama_up),
{
    String::from_str("  ollama: ").concat(
        if ollama_up {
            "çalışıyor"
        } else {
            "kapalı → kurulacak"
        },
    )
}

/// The state report's line on the model.
pub fn model_state_line(model_present: bool) -> (line: String)
    ensures
        line@ == spec_model_state_line(model_present),
{
    String::from_str("  model ").concat(MODEL).concat(": ").concat(
        if model_present {
            "var"
        } else {
            "yok → inecek"
        },
    )
}

/// The log lines of the state report.
pub fn state_check(ollama_up: bool, model_present: bool) -> (lines: Vec<String>)
    ensures
        lines.deep_view() == spec_state_check(ollama_up, model_present),
{
    let mut lines: Vec<String> = Vec::new();
    lines.push(String::from_str(STATE_CHECK_HEADER));
    lines.push(ollama_state_line(ollama_up));
    lines.push(model_state_line(model_present));
    assert(lines.deep_view() =~= spec_state_check(ollama_up, model_present));
    lines
}

} // verus!
