//! The command-line bootstrapper: when the engine already answers it only
//! opens the console; otherwise it provisions the data directory, reports and
//! provisions the local AI runtime, starts the engine and the console each in
//! a process group of its own, opens the console, and once the engine exits
//! stops both groups. The decisions are a state machine; the application
//! performs each action and reports back.
use vstd::prelude::*;
use crate::command::{
    CommandSpec, CommandView, CONSOLE_ADDR, CONSOLE_URL, CORE_ADDR, engine_command,
    notify, npm_console_command, open_console_command, spec_console_command, spec_notify,
    spec_quiet_command, spec_repo_core_command,
};
use crate::desktop::{READY_TITLE, STARTING_BODY, STARTING_TITLE};
use crate::paths::{
    lemma_provisioned_dirs_under_base, HOME_MISSING, bmux_home, home, home_fallback_used, provision_dirs, repo, spec_bmux_home, spec_home,
    spec_provision_dirs, spec_repo,
};
use crate::process::{child_pid, spec_child_pid};
use crate::provision::{
    STATE_CHECK_HEADER, model_state_line, ollama_state_line, spec_model_state_line,
    spec_ollama_state_line, spec_state_check,
};

verus! {

pub const BANNER: &'static str = "brainmux Companion (Rust bootstrapper) başlıyor…";
pub const ALREADY_RUNNING: &'static str = "çekirdek zaten çalışıyor → konsol açılıyor.";
pub const RUNNING_TITLE: &'static str = "brainmux çalışıyor";
pub const RUNNING_BODY: &'static str = "Konsol açılıyor…";
pub const DIRS_HEADER: &'static str = "1/4 dizinler hazırlanıyor…";
pub const DIRS_READY: &'static str = "  ~/.brainmux hazır: ";
pub const CORE_HEADER: &'static str = "4/4 çekirdek başlatılıyor (127.0.0.1:8787)…";
pub const CORE_SLOW: &'static str = "  UYARI: çekirdek açılmadı (127.0.0.1:8787)";
pub const CORE_UP: &'static str = "  çekirdek yayında: 127.0.0.1:8787 ✓";
pub const CONSOLE_SLOW: &'static str = "  UYARI: konsol açılmadı (127.0.0.1:3100)";
pub const READY_PREFIX: &'static str = "hazır → ";
pub const READY_BODY: &'static str = "Konsol açılıyor — modülleri kullanabilirsiniz.";
pub const RUNNING_LOG: &'static str = "çalışıyor. Konsoldan 'Lokal Modu Durdur' ya da Ctrl+C ile durdur.";
pub const STOPPING_LOG: &'static str = "çekirdek durdu — kapatılıyor…";

/// The log line for an engine that could not be started.
pub open spec fn core_failed_line(reason: Seq<char>) -> Seq<char> {
    "HATA: çekirdek başlatılamadı ("@ + reason + ") — uv kurulu mu?"@
}

/// The log line for a console that could not be started.
pub open spec fn console_failed_line(reason: Seq<char>) -> Seq<char> {
    "UYARI: konsol başlatılamadı ("@ + reason + ") — npm/Node var mı?"@
}

/// What the application is asked to do next.
#[derive(Debug)]
pub enum BootAction {
    /// Print a log line.
    Log(String),
    /// Start a command, ignoring whether it could be started.
    Run(CommandSpec),
    /// Check whether the address accepts a connection; report the answer.
    ProbePort(String),
    /// Create these directories, each with its parents, ignoring failures.
    ProvisionDirs(Vec<String>),
    /// Ask the Ollama daemon whether it is up; report the answer.
    ProbeOllama,
    /// Ask the daemon whether the model is present; report the answer.
    ProbeModel,
    /// Run the provisioning of the AI runtime (see `provision`) to its end.
    AutoProvision,
    /// Start the command in a process group of its own; report its id, or why
    /// it could not start.
    Spawn(CommandSpec),
    /// Wait for the address to accept connections; report whether it did.
    WaitPort(String),
    /// From now on, on Ctrl+C stop the process group led by this pid.
    GuardInterrupt(i32),
    /// Block until the child with this pid (the engine) exits.
    WaitExit(i32),
    /// Stop the process group led by this pid.
    StopGroup(i32),
    /// End the program with this exit code.
    Exit(i32),
}

/// The mathematical model of a [`BootAction`].
pub enum BootActionView {
    Log(Seq<char>),
    Run(CommandView),
    ProbePort(Seq<char>),
    ProvisionDirs(Seq<Seq<char>>),
    ProbeOllama,
    ProbeModel,
    AutoProvision,
    Spawn(CommandView),
    WaitPort(Seq<char>),
    GuardInterrupt(i32),
    WaitExit(i32),
    StopGroup(i32),
    Exit(i32),
}

impl View for BootAction {
    type V = BootActionView;

    open spec fn view(&self) -> BootActionView {
        match self {
            BootAction::Log(s) => BootActionView::Log(s@),
            BootAction::Run(c) => BootActionView::Run(c@),
            BootAction::ProbePort(a) => BootActionView::ProbePort(a@),
            BootAction::ProvisionDirs(d) => BootActionView::ProvisionDirs(d.deep_view()),
            BootAction::ProbeOllama => BootActionView::ProbeOllama,
            BootAction::ProbeModel => BootActionView::ProbeModel,
            BootAction::AutoProvision => BootActionView::AutoProvision,
            BootAction::Spawn(c) => BootActionView::Spawn(c@),
            BootAction::WaitPort(a) => BootActionView::WaitPort(a@),
            BootAction::GuardInterrupt(p) => BootActionView::GuardInterrupt(*p),
            BootAction::WaitExit(p) => BootActionView::WaitExit(*p),
            BootAction::StopGroup(p) => BootActionView::StopGroup(*p),
            BootAction::Exit(c) => BootActionView::Exit(*c),
        }
    }
}

/// What happened to the last action.
#[derive(Debug)]
pub enum BootEvent {
    /// The action is over.
    Completed,
    /// A probe or check ran: its answer.
    Probed(bool),
    /// The command started with this process id.
    Spawned(u32),
    /// The command could not be started, for the given reason.
    SpawnFailed(String),
    /// The wait is over: whether the address accepted a connection.
    PortWaited(bool),
    /// The user pressed Ctrl+C (after the engine's group was guarded, whose
    /// guard has already stopped that group); this replaces the report of
    /// the pending action, which is abandoned.
    Interrupted,
}

/// The mathematical model of a [`BootEvent`].
pub enum BootEventView {
    Completed,
    Probed(bool),
    Spawned(u32),
    SpawnFailed(Seq<char>),
    PortWaited(bool),
    Interrupted,
}

impl View for BootEvent {
    type V = BootEventView;

    open spec fn view(&self) -> BootEventView {
        match self {
            BootEvent::Completed => BootEventView::Completed,
            BootEvent::Probed(b) => BootEventView::Probed(*b),
            BootEvent::Spawned(id) => BootEventView::Spawned(*id),
            BootEvent::SpawnFailed(r) => BootEventView::SpawnFailed(r@),
            BootEvent::PortWaited(b) => BootEventView::PortWaited(*b),
            BootEvent::Interrupted => BootEventView::Interrupted,
        }
    }
}

/// Which action was issued last.
#[derive(PartialEq, Eq, Structural, Clone, Copy, Debug)]
pub enum BootPhase {
    Banner,
    ProbingCore,
    AlreadyLog,
    AlreadyNotified,
    AlreadyOpened,
    AnnouncedStart,
    DirsLog,
    DataHomeWarned,
    Provisioning,
    DirsReady,
    CheckLog,
    CheckingOllama,
    OllamaReported,
    CheckingModel,
    ModelReported,
    Provisioned,
    RepoHomeWarned,
    CoreLog,
    SpawningCore,
    CoreGuarded,
    CoreFailed,
    WaitingCore,
    CoreSlow,
    CoreUp,
    SpawningConsole,
    ConsoleFailed,
    WaitingConsole,
    ConsoleSlow,
    ReadyLog,
    ReadyNotified,
    Opened,
    RunningLog,
    Running,
    StoppingLog,
    StoppedConsole,
    StoppedCore,
    /// The program ends with this exit code.
    Exited(i32),
}

/// A bootstrapper run in progress.
#[derive(Debug)]
pub struct Bootstrap {
    pub phase: BootPhase,
    /// Leader of the engine's process group, once started.
    pub core_pid: Option<i32>,
    /// Leader of the console's process group, once started.
    pub console_pid: Option<i32>,
    pub data_dir: String,
    pub repo: String,
    /// The data directory fell back on the home directory with `HOME` unset.
    pub warn_data_dir: bool,
    /// The checkout fell back on the home directory with `HOME` unset.
    pub warn_repo: bool,
}

/// The mathematical model of a [`Bootstrap`].
pub struct BootView {
    pub phase: BootPhase,
    pub core_pid: Option<i32>,
    pub console_pid: Option<i32>,
    pub data_dir: Seq<char>,
    pub repo: Seq<char>,
    pub warn_data_dir: bool,
    pub warn_repo: bool,
}

impl View for Bootstrap {
    type V = BootView;

    open spec fn view(&self) -> BootView {
        BootView {
            phase: self.phase,
            core_pid: self.core_pid,
            console_pid: self.console_pid,
            data_dir: self.data_dir@,
            repo: self.repo@,
            warn_data_dir: self.warn_data_dir,
            warn_repo: self.warn_repo,
        }
    }
}

/// The answer an event gives; any other event counts as a negative answer.
pub open spec fn boot_answer(e: BootEventView) -> bool {
    match e {
        BootEventView::Probed(b) => b,
        BootEventView::PortWaited(b) => b,
        _ => false,
    }
}

/// The reason a spawn event gives for a failure (none for other events).
pub open spec fn boot_failure_reason(e: BootEventView) -> Seq<char> {
    match e {
        BootEventView::SpawnFailed(r) => r,
        _ => Seq::empty(),
    }
}

/// The line announcing that everything is up.
pub open spec fn ready_line() -> Seq<char> {
    READY_PREFIX@ + CONSOLE_URL@
}

/// After the engine exits: stop the engine's group, or end when there is none.
pub open spec fn stop_core(s: BootView) -> (BootView, BootActionView) {
    match s.core_pid {
        Some(p) => (BootView { phase: BootPhase::StoppedCore, ..s }, BootActionView::StopGroup(p)),
        None => (BootView { phase: BootPhase::Exited(0), ..s }, BootActionView::Exit(0)),
    }
}

/// The next state and action after `e` in state `s`.
/// The phases in which Ctrl+C is guarded and start-up is still going on (or
/// the engine is being waited for): from the engine's guard up to the
/// shutdown.
pub open spec fn interruptible(p: BootPhase) -> bool {
    match p {
        BootPhase::CoreGuarded | BootPhase::WaitingCore | BootPhase::CoreSlow | BootPhase::CoreUp
        | BootPhase::SpawningConsole | BootPhase::ConsoleFailed | BootPhase::WaitingConsole
        | BootPhase::ConsoleSlow | BootPhase::ReadyLog | BootPhase::ReadyNotified | BootPhase::Opened
        | BootPhase::RunningLog | BootPhase::Running => true,
        _ => false,
    }
}

/// The next state and action after `e` in state `s`. Ctrl+C, once guarded,
/// cuts start-up short: the run goes straight to the shutdown (stopping the
/// console's group, if any, and the engine's, then exiting with 0);
/// otherwise see [`boot_regular_step`].
pub open spec fn boot_step(s: BootView, e: BootEventView) -> (BootView, BootActionView) {
    if e is Interrupted && interruptible(s.phase) {
        (BootView { phase: BootPhase::StoppingLog, ..s }, BootActionView::Log(STOPPING_LOG@))
    } else {
        boot_regular_step(s, e)
    }
}

/// The next state and action after `e` in state `s`, when no interrupt cuts in.
pub open spec fn boot_regular_step(s: BootView, e: BootEventView) -> (BootView, BootActionView) {
    let to = |p: BootPhase| BootView { phase: p, ..s };
    match s.phase {
        BootPhase::Banner => (to(BootPhase::ProbingCore), BootActionView::ProbePort(CORE_ADDR@)),
        BootPhase::ProbingCore => if boot_answer(e) {
            (to(BootPhase::AlreadyLog), BootActionView::Log(ALREADY_RUNNING@))
        } else {
            (to(BootPhase::AnnouncedStart), BootActionView::Run(spec_notify(STARTING_TITLE@, STARTING_BODY@)))
        },
        BootPhase::AlreadyLog => (to(BootPhase::AlreadyNotified), BootActionView::Run(spec_notify(RUNNING_TITLE@, RUNNING_BODY@))),
        BootPhase::AlreadyNotified => (to(BootPhase::AlreadyOpened), BootActionView::Run(spec_quiet_command("xdg-open"@, CONSOLE_URL@))),
        BootPhase::AlreadyOpened => (to(BootPhase::Exited(0)), BootActionView::Exit(0)),
        BootPhase::AnnouncedStart => (to(BootPhase::DirsLog), BootActionView::Log(DIRS_HEADER@)),
        BootPhase::DirsLog => if s.warn_data_dir {
            (to(BootPhase::DataHomeWarned), BootActionView::Log(HOME_MISSING@))
        } else {
            (to(BootPhase::Provisioning), BootActionView::ProvisionDirs(spec_provision_dirs(s.data_dir)))
        },
        BootPhase::DataHomeWarned => (to(BootPhase::Provisioning), BootActionView::ProvisionDirs(spec_provision_dirs(s.data_dir))),
        BootPhase::Provisioning => (to(BootPhase::DirsReady), BootActionView::Log(DIRS_READY@ + s.data_dir)),
        BootPhase::DirsReady => (to(BootPhase::CheckLog), BootActionView::Log(STATE_CHECK_HEADER@)),
        BootPhase::CheckLog => (to(BootPhase::CheckingOllama), BootActionView::ProbeOllama),
        BootPhase::CheckingOllama => (to(BootPhase::OllamaReported), BootActionView::Log(spec_ollama_state_line(boot_answer(e)))),
        BootPhase::OllamaReported => (to(BootPhase::CheckingModel), BootActionView::ProbeModel),
        BootPhase::CheckingModel => (to(BootPhase::ModelReported), BootActionView::Log(spec_model_state_line(boot_answer(e)))),
        BootPhase::ModelReported => (to(BootPhase::Provisioned), BootActionView::AutoProvision),
        BootPhase::Provisioned => if s.warn_repo {
            (to(BootPhase::RepoHomeWarned), BootActionView::Log(HOME_MISSING@))
        } else {
            (to(BootPhase::CoreLog), BootActionView::Log(CORE_HEADER@))
        },
        BootPhase::RepoHomeWarned => (to(BootPhase::CoreLog), BootActionView::Log(CORE_HEADER@)),
        BootPhase::CoreLog => (to(BootPhase::SpawningCore), BootActionView::Spawn(spec_repo_core_command(s.repo))),
        BootPhase::SpawningCore => match e {
            BootEventView::Spawned(id) => (
                BootView { phase: BootPhase::CoreGuarded, core_pid: Some(spec_child_pid(id)), ..s },
                BootActionView::GuardInterrupt(spec_child_pid(id)),
            ),
            _ => (to(BootPhase::CoreFailed), BootActionView::Log(core_failed_line(boot_failure_reason(e)))),
        },
        BootPhase::CoreGuarded => (to(BootPhase::WaitingCore), BootActionView::WaitPort(CORE_ADDR@)),
        BootPhase::CoreFailed => (to(BootPhase::Exited(1)), BootActionView::Exit(1)),
        BootPhase::WaitingCore => if boot_answer(e) {
            (to(BootPhase::CoreUp), BootActionView::Log(CORE_UP@))
        } else {
            (to(BootPhase::CoreSlow), BootActionView::Log(CORE_SLOW@))
        },
        BootPhase::CoreSlow => (to(BootPhase::CoreUp), BootActionView::Log(CORE_UP@)),
        BootPhase::CoreUp => (to(BootPhase::SpawningConsole), BootActionView::Spawn(spec_console_command(s.repo, false))),
        BootPhase::SpawningConsole => match e {
            BootEventView::Spawned(id) => (
                BootView { phase: BootPhase::WaitingConsole, console_pid: Some(spec_child_pid(id)), ..s },
                BootActionView::WaitPort(CONSOLE_ADDR@),
            ),
            _ => (to(BootPhase::ConsoleFailed), BootActionView::Log(console_failed_line(boot_failure_reason(e)))),
        },
        BootPhase::ConsoleFailed => (to(BootPhase::ReadyLog), BootActionView::Log(ready_line())),
        BootPhase::WaitingConsole => if boot_answer(e) {
            (to(BootPhase::ReadyLog), BootActionView::Log(ready_line()))
        } else {
            (to(BootPhase::ConsoleSlow), BootActionView::Log(CONSOLE_SLOW@))
        },
        BootPhase::ConsoleSlow => (to(BootPhase::ReadyLog), BootActionView::Log(ready_line())),
        BootPhase::ReadyLog => (to(BootPhase::ReadyNotified), BootActionView::Run(spec_notify(READY_TITLE@, READY_BODY@))),
        BootPhase::ReadyNotified => (to(BootPhase::Opened), BootActionView::Run(spec_quiet_command("xdg-open"@, CONSOLE_URL@))),
        BootPhase::Opened => (to(BootPhase::RunningLog), BootActionView::Log(RUNNING_LOG@)),
        BootPhase::RunningLog => match s.core_pid {
            Some(p) => (to(BootPhase::Running), BootActionView::WaitExit(p)),
            None => (to(BootPhase::StoppingLog), BootActionView::Log(STOPPING_LOG@)),
        },
        BootPhase::Running => (to(BootPhase::StoppingLog), BootActionView::Log(STOPPING_LOG@)),
        BootPhase::StoppingLog => match s.console_pid {
            Some(c) => (to(BootPhase::StoppedConsole), BootActionView::StopGroup(c)),
            None => stop_core(s),
        },
        BootPhase::StoppedConsole => stop_core(s),
        BootPhase::StoppedCore => (to(BootPhase::Exited(0)), BootActionView::Exit(0)),
        BootPhase::Exited(c) => (s, BootActionView::Exit(c)),
    }
}

fn log(line: &str) -> (a: BootAction)
    ensures
        a@ == BootActionView::Log(line@),
{
    BootAction::Log(String::from_str(line))
}

/// Starts the bootstrapper from the values of `HOME`, `BRAINMUX_HOME` and
/// `BRAINMUX_REPO` (`None` when unset): it resolves the data directory and the
/// product checkout, and notes which of them fall back on an unset `HOME`
/// (each is warned about when it is first used). The first action prints the
/// banner.
pub fn bootstrap(env_home: Option<String>, env_data_dir: Option<String>, env_repo: Option<String>) -> (res: (
    Bootstrap,
    BootAction,
))
    ensures
        res.0@ == (BootView {
            phase: BootPhase::Banner,
            core_pid: None,
            console_pid: None,
            data_dir: spec_bmux_home(env_data_dir.deep_view(), spec_home(env_home.deep_view())),
            repo: spec_repo(env_repo.deep_view(), spec_home(env_home.deep_view())),
            warn_data_dir: env_data_dir is None && env_home is None,
            warn_repo: env_repo is None && env_home is None,
        }),
        res.1@ == BootActionView::Log(BANNER@),
{
    let warn_data_dir = home_fallback_used(&env_data_dir, &env_home);
    let warn_repo = home_fallback_used(&env_repo, &env_home);
    let home_dir = home(env_home);
    let data_dir = bmux_home(env_data_dir, home_dir.as_str());
    let repo_dir = repo(env_repo, home_dir.as_str());
    (
        Bootstrap {
            phase: BootPhase::Banner,
            core_pid: None,
            console_pid: None,
            data_dir,
            repo: repo_dir,
            warn_data_dir,
            warn_repo,
        },
        log(BANNER),
    )
}

impl Bootstrap {
    fn stop_core(&mut self) -> (a: BootAction)
        ensures
            final(self)@ == stop_core(old(self)@).0,
            a@ == stop_core(old(self)@).1,
    {
        match self.core_pid {
            Some(p) => {
                self.phase = BootPhase::StoppedCore;
                BootAction::StopGroup(p)
            },
            None => {
                self.phase = BootPhase::Exited(0);
                BootAction::Exit(0)
            },
        }
    }

    /// Whether an interrupt now cuts start-up short (see [`interruptible`]).
    pub fn accepts_interrupt(&self) -> (b: bool)
        ensures
            b == interruptible(self.phase),
    {
        match self.phase {
            BootPhase::CoreGuarded | BootPhase::WaitingCore | BootPhase::CoreSlow | BootPhase::CoreUp
            | BootPhase::SpawningConsole | BootPhase::ConsoleFailed | BootPhase::WaitingConsole
            | BootPhase::ConsoleSlow | BootPhase::ReadyLog | BootPhase::ReadyNotified | BootPhase::Opened
            | BootPhase::RunningLog | BootPhase::Running => true,
            _ => false,
        }
    }

    /// Takes in what happened to the last action and returns the next one.
    pub fn step(&mut self, e: BootEvent) -> (a: BootAction)
        ensures
            final(self)@ == boot_step(old(self)@, e@).0,
            a@ == boot_step(old(self)@, e@).1,
    {
        let cut = match e {
            BootEvent::Interrupted => self.accepts_interrupt(),
            _ => false,
        };
        if cut {
            self.phase = BootPhase::StoppingLog;
            log(STOPPING_LOG)
        } else {
            self.regular_step(e)
        }
    }

    fn regular_step(&mut self, e: BootEvent) -> (a: BootAction)
        ensures
            final(self)@ == boot_regular_step(old(self)@, e@).0,
            a@ == boot_regular_step(old(self)@, e@).1,
    {
        let yes = match e {
            BootEvent::Probed(b) => b,
            BootEvent::PortWaited(b) => b,
            _ => false,
        };
        match self.phase {
            BootPhase::Banner => {
                self.phase = BootPhase::ProbingCore;
                BootAction::ProbePort(String::from_str(CORE_ADDR))
            },
            BootPhase::ProbingCore => {
                if yes {
                    self.phase = BootPhase::AlreadyLog;
                    log(ALREADY_RUNNING)
                } else {
                    self.phase = BootPhase::AnnouncedStart;
                    BootAction::Run(notify(STARTING_TITLE, STARTING_BODY))
                }
            },
            BootPhase::AlreadyLog => {
                self.phase = BootPhase::AlreadyNotified;
                BootAction::Run(notify(RUNNING_TITLE, RUNNING_BODY))
            },
            BootPhase::AlreadyNotified => {
                self.phase = BootPhase::AlreadyOpened;
                BootAction::Run(open_console_command())
            },
            BootPhase::AlreadyOpened => {
                self.phase = BootPhase::Exited(0);
                BootAction::Exit(0)
            },
            BootPhase::AnnouncedStart => {
                self.phase = BootPhase::DirsLog;
                log(DIRS_HEADER)
            },
            BootPhase::DirsLog => {
                if self.warn_data_dir {
                    self.phase = BootPhase::DataHomeWarned;
                    log(HOME_MISSING)
                } else {
                    self.phase = BootPhase::Provisioning;
                    BootAction::ProvisionDirs(provision_dirs(self.data_dir.as_str()))
                }
            },
            BootPhase::DataHomeWarned => {
                self.phase = BootPhase::Provisioning;
                BootAction::ProvisionDirs(provision_dirs(self.data_dir.as_str()))
            },
            BootPhase::Provisioning => {
                self.phase = BootPhase::DirsReady;
                BootAction::Log(String::from_str(DIRS_READY).concat(self.data_dir.as_str()))
            },
            BootPhase::DirsReady => {
                self.phase = BootPhase::CheckLog;
                log(STATE_CHECK_HEADER)
            },
            BootPhase::CheckLog => {
                self.phase = BootPhase::CheckingOllama;
                BootAction::ProbeOllama
            },
            BootPhase::CheckingOllama => {
                self.phase = BootPhase::OllamaReported;
                BootAction::Log(ollama_state_line(yes))
            },
            BootPhase::OllamaReported => {
                self.phase = BootPhase::CheckingModel;
                BootAction::ProbeModel
            },
            BootPhase::CheckingModel => {
                self.phase = BootPhase::ModelReported;
                BootAction::Log(model_state_line(yes))
            },
            BootPhase::ModelReported => {
                self.phase = BootPhase::Provisioned;
                BootAction::AutoProvision
            },
            BootPhase::Provisioned => {
                if self.warn_repo {
                    self.phase = BootPhase::RepoHomeWarned;
                    log(HOME_MISSING)
                } else {
                    self.phase = BootPhase::CoreLog;
                    log(CORE_HEADER)
                }
            },
            BootPhase::RepoHomeWarned => {
                self.phase = BootPhase::CoreLog;
                log(CORE_HEADER)
            },
            BootPhase::CoreLog => {
                self.phase = BootPhase::SpawningCore;
                let cmd = engine_command(&None, &None, self.repo.as_str());
                BootAction::Spawn(cmd)
            },
            BootPhase::SpawningCore => match e {
                BootEvent::Spawned(id) => {
                    let pid = child_pid(id);
                    self.core_pid = Some(pid);
                    self.phase = BootPhase::CoreGuarded;
                    BootAction::GuardInterrupt(pid)
                },
                BootEvent::SpawnFailed(reason) => {
                    self.phase = BootPhase::CoreFailed;
                    BootAction::Log(
                        String::from_str("HATA: çekirdek başlatılamadı (").concat(reason.as_str()).concat(
                            ") — uv kurulu mu?",
                        ),
                    )
                },
                _ => {
                    proof {
                        reveal_strlit("");
                    }
                    self.phase = BootPhase::CoreFailed;
                    BootAction::Log(
                        String::from_str("HATA: çekirdek başlatılamadı (").concat("").concat(
                            ") — uv kurulu mu?",
                        ),
                    )
                },
            },
            BootPhase::CoreGuarded => {
                self.phase = BootPhase::WaitingCore;
                BootAction::WaitPort(String::from_str(CORE_ADDR))
            },
            BootPhase::CoreFailed => {
                self.phase = BootPhase::Exited(1);
                BootAction::Exit(1)
            },
            BootPhase::WaitingCore => {
                if yes {
                    self.phase = BootPhase::CoreUp;
                    log(CORE_UP)
                } else {
                    self.phase = BootPhase::CoreSlow;
                    log(CORE_SLOW)
                }
            },
            BootPhase::CoreSlow => {
                self.phase = BootPhase::CoreUp;
                log(CORE_UP)
            },
            BootPhase::CoreUp => {
                self.phase = BootPhase::SpawningConsole;
                BootAction::Spawn(npm_console_command(self.repo.as_str(), false))
            },
            BootPhase::SpawningConsole => match e {
                BootEvent::Spawned(id) => {
                    self.console_pid = Some(child_pid(id));
                    self.phase = BootPhase::WaitingConsole;
                    BootAction::WaitPort(String::from_str(CONSOLE_ADDR))
                },
                BootEvent::SpawnFailed(reason) => {
                    self.phase = BootPhase::ConsoleFailed;
                    BootAction::Log(
                        String::from_str("UYARI: konsol başlatılamadı (").concat(reason.as_str()).concat(
                            ") — npm/Node var mı?",
                        ),
                    )
                },
                _ => {
                    proof {
                        reveal_strlit("");
                    }
                    self.phase = BootPhase::ConsoleFailed;
                    BootAction::Log(
                        String::from_str("UYARI: konsol başlatılamadı (").concat("").concat(
                            ") — npm/Node var mı?",
                        ),
                    )
                },
            },
            BootPhase::ConsoleFailed => {
                self.phase = BootPhase::ReadyLog;
                BootAction::Log(String::from_str(READY_PREFIX).concat(CONSOLE_URL))
            },
            BootPhase::WaitingConsole => {
                if yes {
                    self.phase = BootPhase::ReadyLog;
                    BootAction::Log(String::from_str(READY_PREFIX).concat(CONSOLE_URL))
                } else {
                    self.phase = BootPhase::ConsoleSlow;
                    log(CONSOLE_SLOW)
                }
            },
            BootPhase::ConsoleSlow => {
                self.phase = BootPhase::ReadyLog;
                BootAction::Log(String::from_str(READY_PREFIX).concat(CONSOLE_URL))
            },
            BootPhase::ReadyLog => {
                self.phase = BootPhase::ReadyNotified;
                BootAction::Run(notify(READY_TITLE, READY_BODY))
            },
            BootPhase::ReadyNotified => {
                self.phase = BootPhase::Opened;
                BootAction::Run(open_console_command())
            },
            BootPhase::Opened => {
                self.phase = BootPhase::RunningLog;
                log(RUNNING_LOG)
            },
            BootPhase::RunningLog => match self.core_pid {
                Some(p) => {
                    self.phase = BootPhase::Running;
                    BootAction::WaitExit(p)
                },
                None => {
                    self.phase = BootPhase::StoppingLog;
                    log(STOPPING_LOG)
                },
            },
            BootPhase::Running => {
                self.phase = BootPhase::StoppingLog;
                log(STOPPING_LOG)
            },
            BootPhase::StoppingLog => match self.console_pid {
                Some(c) => {
                    self.phase = BootPhase::StoppedConsole;
                    BootAction::StopGroup(c)
                },
                None => self.stop_core(),
            },
            BootPhase::StoppedConsole => self.stop_core(),
            BootPhase::StoppedCore => {
                self.phase = BootPhase::Exited(0);
                BootAction::Exit(0)
            },
            BootPhase::Exited(c) => BootAction::Exit(c),
        }
    }
}

/// What the outside world answers during a bootstrapper run: whether the
/// engine already answers, whether the daemon is up and the model present,
/// what the engine's and the console's spawns give (an id, or why not), and
/// whether their addresses come up.
pub struct BootEnv {
    pub core_open: bool,
    pub ollama_up: bool,
    pub model_present: bool,
    pub core: Result<u32, Seq<char>>,
    pub core_up: bool,
    pub console: Result<u32, Seq<char>>,
    pub console_up: bool,
}

/// What a spawn reports: the child's id, or why it could not start.
pub open spec fn boot_spawn_event(r: Result<u32, Seq<char>>) -> BootEventView {
    match r {
        Ok(id) => BootEventView::Spawned(id),
        Err(reason) => BootEventView::SpawnFailed(reason),
    }
}

/// How `env` answers the action issued last (which phase `p` records).
pub open spec fn boot_response(p: BootPhase, env: BootEnv) -> BootEventView {
    match p {
        BootPhase::ProbingCore => BootEventView::Probed(env.core_open),
        BootPhase::CheckingOllama => BootEventView::Probed(env.ollama_up),
        BootPhase::CheckingModel => BootEventView::Probed(env.model_present),
        BootPhase::SpawningCore => boot_spawn_event(env.core),
        BootPhase::WaitingCore => BootEventView::PortWaited(env.core_up),
        BootPhase::SpawningConsole => boot_spawn_event(env.console),
        BootPhase::WaitingConsole => BootEventView::PortWaited(env.console_up),
        _ => BootEventView::Completed,
    }
}

/// The effects of a run that outlive it: the directory lists it provisioned,
/// the commands it spawned in groups of their own, the groups it guarded
/// against Ctrl+C, the groups it stopped, the programs it ran on the side,
/// and how it exited, each in order.
pub struct BootTally {
    pub provisions: Seq<Seq<Seq<char>>>,
    pub spawns: Seq<CommandView>,
    pub guards: Seq<i32>,
    pub stops: Seq<i32>,
    pub side_runs: Seq<CommandView>,
    pub exits: Seq<i32>,
}

/// Records action `a` in tally `t` (of what follows it).
pub open spec fn boot_record(a: BootActionView, t: BootTally) -> BootTally {
    match a {
        BootActionView::ProvisionDirs(d) => BootTally { provisions: seq![d] + t.provisions, ..t },
        BootActionView::Spawn(c) => BootTally { spawns: seq![c] + t.spawns, ..t },
        BootActionView::GuardInterrupt(p) => BootTally { guards: seq![p] + t.guards, ..t },
        BootActionView::StopGroup(p) => BootTally { stops: seq![p] + t.stops, ..t },
        BootActionView::Run(c) => BootTally { side_runs: seq![c] + t.side_runs, ..t },
        BootActionView::Exit(c) => BootTally { exits: seq![c] + t.exits, ..t },
        _ => t,
    }
}

/// Runs the bootstrapper from state `s` against `env`, at most `fuel` steps:
/// the tally of what it does until it exits, or `None` when the steps run out.
pub open spec fn drive_boot(s: BootView, env: BootEnv, fuel: nat) -> Option<BootTally>
    decreases fuel,
{
    if s.phase is Exited {
        Some(BootTally { provisions: seq![], spawns: seq![], guards: seq![], stops: seq![], side_runs: seq![], exits: seq![] })
    } else if fuel == 0 {
        None
    } else {
        let (s2, a) = boot_step(s, boot_response(s.phase, env));
        match drive_boot(s2, env, (fuel - 1) as nat) {
            Some(t) => Some(boot_record(a, t)),
            None => None,
        }
    }
}

/// The state a run starts in, after the banner.
pub open spec fn boot_start(data_dir: Seq<char>, repo: Seq<char>, warn_data_dir: bool, warn_repo: bool) -> BootView {
    BootView { phase: BootPhase::Banner, core_pid: None, console_pid: None, data_dir, repo, warn_data_dir, warn_repo }
}

/// Steps that bound a bootstrapper run.
pub open spec fn boot_fuel() -> nat {
    40
}

/// A tally of nothing.
pub open spec fn empty_tally() -> BootTally {
    BootTally { provisions: seq![], spawns: seq![], guards: seq![], stops: seq![], side_runs: seq![], exits: seq![] }
}

/// When the engine already answers, the bootstrapper starts nothing: it
/// announces that the engine runs, opens the console and exits with 0.
pub proof fn lemma_bootstrap_second_launch_starts_nothing(
    data_dir: Seq<char>,
    repo: Seq<char>,
    warn_data_dir: bool,
    warn_repo: bool,
    env: BootEnv,
)
    requires
        env.core_open,
    ensures
        drive_boot(boot_start(data_dir, repo, warn_data_dir, warn_repo), env, boot_fuel()) == Some(
            BootTally {
                provisions: seq![],
                spawns: seq![],
                guards: seq![],
                stops: seq![],
                side_runs: seq![
                    spec_notify(RUNNING_TITLE@, RUNNING_BODY@),
                    spec_quiet_command("xdg-open"@, CONSOLE_URL@),
                ],
                exits: seq![0],
            },
        ),
{
    let s0 = boot_start(data_dir, repo, warn_data_dir, warn_repo);
    let fuel = boot_fuel();
    let at = |p: BootPhase| BootView { phase: p, ..s0 };
    let empty = empty_tally();
    let open = spec_quiet_command("xdg-open"@, CONSOLE_URL@);
    let note = spec_notify(RUNNING_TITLE@, RUNNING_BODY@);
    assert(drive_boot(at(BootPhase::Exited(0)), env, (fuel - 5) as nat) == Some(empty));
    let t4 = BootTally { exits: seq![0], ..empty };
    assert(drive_boot(at(BootPhase::AlreadyOpened), env, (fuel - 4) as nat) == Some(t4)) by {
        assert(seq![0i32] + empty.exits =~= seq![0i32]);
    }
    let t3 = BootTally { side_runs: seq![open], ..t4 };
    assert(drive_boot(at(BootPhase::AlreadyNotified), env, (fuel - 3) as nat) == Some(t3)) by {
        assert(seq![open] + t4.side_runs =~= seq![open]);
    }
    let t2 = BootTally { side_runs: seq![note, open], ..t4 };
    assert(drive_boot(at(BootPhase::AlreadyLog), env, (fuel - 2) as nat) == Some(t2)) by {
        assert(seq![note] + t3.side_runs =~= seq![note, open]);
    }
    assert(drive_boot(at(BootPhase::ProbingCore), env, (fuel - 1) as nat) == Some(t2));
    assert(drive_boot(s0, env, fuel) == Some(t2));
}

/// The group leader a spawn adds, if any.
pub open spec fn boot_spawned_pid(r: Result<u32, Seq<char>>) -> Option<i32> {
    match r {
        Ok(id) => Some(spec_child_pid(id)),
        Err(_) => None,
    }
}

/// The groups stopped once the engine (group `core`) exits: the console's
/// group first when there is one, then the engine's.
pub open spec fn stop_order(core: i32, console: Option<i32>) -> Seq<i32> {
    match console {
        Some(c) => seq![c, core],
        None => seq![core],
    }
}

/// What a run does from announcing readiness on, with the engine's group
/// `core` and the console's group `console`.
pub open spec fn tail_tally(core: i32, console: Option<i32>) -> BootTally {
    BootTally {
        provisions: seq![],
        spawns: seq![],
        guards: seq![],
        stops: stop_order(core, console),
        side_runs: seq![spec_notify(READY_TITLE@, READY_BODY@), spec_quiet_command("xdg-open"@, CONSOLE_URL@)],
        exits: seq![0],
    }
}

proof fn lemma_boot_tail(s: BootView, env: BootEnv, f: nat, core: i32)
    requires
        s.phase == BootPhase::ReadyLog,
        s.core_pid == Some(core),
        f >= 8,
    ensures
        drive_boot(s, env, f) == Some(tail_tally(core, s.console_pid)),
{
    let at = |p: BootPhase| BootView { phase: p, ..s };
    let e = empty_tally();
    let open = spec_quiet_command("xdg-open"@, CONSOLE_URL@);
    let note = spec_notify(READY_TITLE@, READY_BODY@);
    let stops = stop_order(core, s.console_pid);
    let after_stop = BootTally { exits: seq![0], ..e };
    let k: nat = if s.console_pid is Some { 6 } else { 5 };
    assert(drive_boot(at(BootPhase::Exited(0)), env, (f - k - 2) as nat) == Some(e));
    assert(drive_boot(at(BootPhase::StoppedCore), env, (f - k - 1) as nat) == Some(after_stop)) by {
        assert(seq![0i32] + e.exits =~= seq![0i32]);
    }
    let stopped = BootTally { stops: seq![core], ..after_stop };
    if s.console_pid is Some {
        assert(drive_boot(at(BootPhase::StoppedConsole), env, (f - 6) as nat) == Some(stopped)) by {
            assert(seq![core] + after_stop.stops =~= seq![core]);
        }
        assert(drive_boot(at(BootPhase::StoppingLog), env, (f - 5) as nat) == Some(BootTally { stops, ..after_stop })) by {
            assert(seq![s.console_pid->0] + stopped.stops =~= stops);
        }
    } else {
        assert(drive_boot(at(BootPhase::StoppingLog), env, (f - 5) as nat) == Some(BootTally { stops, ..after_stop })) by {
            assert(seq![core] + after_stop.stops =~= stops);
        }
    }
    let t5 = BootTally { stops, ..after_stop };
    assert(drive_boot(at(BootPhase::Running), env, (f - 4) as nat) == Some(t5));
    assert(drive_boot(at(BootPhase::RunningLog), env, (f - 3) as nat) == Some(t5));
    assert(drive_boot(at(BootPhase::Opened), env, (f - 2) as nat) == Some(t5));
    let t2 = BootTally { side_runs: seq![open], ..t5 };
    assert(drive_boot(at(BootPhase::ReadyNotified), env, (f - 1) as nat) == Some(t2)) by {
        assert(seq![open] + t5.side_runs =~= seq![open]);
    }
    assert(drive_boot(s, env, f) == Some(tail_tally(core, s.console_pid))) by {
        assert(seq![note] + t2.side_runs =~= seq![note, open]);
    }
}

proof fn lemma_boot_from_core_up(s: BootView, env: BootEnv, f: nat, core: i32)
    requires
        s.phase == BootPhase::CoreUp,
        s.core_pid == Some(core),
        s.console_pid is None,
        f >= 12,
    ensures
        drive_boot(s, env, f) == Some(BootTally {
            spawns: seq![spec_console_command(s.repo, false)],
            ..tail_tally(core, boot_spawned_pid(env.console))
        }),
{
    let at = |p: BootPhase| BootView { phase: p, ..s };
    let cmd = spec_console_command(s.repo, false);
    let console = boot_spawned_pid(env.console);
    let sr = BootView { phase: BootPhase::ReadyLog, console_pid: console, ..s };
    let tail = tail_tally(core, console);
    match env.console {
        Ok(id) => {
            let sw = BootView { phase: BootPhase::WaitingConsole, console_pid: console, ..s };
            if env.console_up {
                lemma_boot_tail(sr, env, (f - 3) as nat, core);
            } else {
                lemma_boot_tail(sr, env, (f - 4) as nat, core);
                let slow = BootView { phase: BootPhase::ConsoleSlow, ..sw };
                assert(drive_boot(slow, env, (f - 3) as nat) == Some(tail));
            }
            assert(drive_boot(sw, env, (f - 2) as nat) == Some(tail));
        },
        Err(_) => {
            lemma_boot_tail(sr, env, (f - 3) as nat, core);
            assert(drive_boot(at(BootPhase::ConsoleFailed), env, (f - 2) as nat) == Some(tail));
        },
    }
    assert(drive_boot(at(BootPhase::SpawningConsole), env, (f - 1) as nat) == Some(tail));
    assert(seq![cmd] + tail.spawns =~= seq![cmd]);
}

/// Steps from announcing the start to logging the engine's start: the
/// directory, state-check and provisioning steps, plus one per `HOME` warning.
pub open spec fn prefix_steps(s: BootView) -> nat {
    10 + (if s.warn_data_dir { 1nat } else { 0nat }) + (if s.warn_repo { 1nat } else { 0nat })
}

proof fn lemma_boot_to_core_log(s: BootView, env: BootEnv, f: nat)
    requires
        s.phase == BootPhase::AnnouncedStart,
        f >= prefix_steps(s),
    ensures
        drive_boot(s, env, f) == match drive_boot(BootView { phase: BootPhase::CoreLog, ..s }, env, (f - prefix_steps(s)) as nat) {
            Some(t) => Some(BootTally { provisions: seq![spec_provision_dirs(s.data_dir)] + t.provisions, ..t }),
            None => None,
        },
{
    let at = |p: BootPhase| BootView { phase: p, ..s };
    let n = prefix_steps(s);
    let rest = drive_boot(at(BootPhase::CoreLog), env, (f - n) as nat);
    let withd = match rest {
        Some(t) => Some(BootTally { provisions: seq![spec_provision_dirs(s.data_dir)] + t.provisions, ..t }),
        None => None,
    };
    let r: nat = if s.warn_repo { 1 } else { 0 };
    if s.warn_repo {
        assert(drive_boot(at(BootPhase::RepoHomeWarned), env, (f - n + 1) as nat) == rest);
    }
    assert(drive_boot(at(BootPhase::Provisioned), env, (f - n + 1 + r) as nat) == rest);
    assert(drive_boot(at(BootPhase::ModelReported), env, (f - n + 2 + r) as nat) == rest);
    assert(drive_boot(at(BootPhase::CheckingModel), env, (f - n + 3 + r) as nat) == rest);
    assert(drive_boot(at(BootPhase::OllamaReported), env, (f - n + 4 + r) as nat) == rest);
    assert(drive_boot(at(BootPhase::CheckingOllama), env, (f - n + 5 + r) as nat) == rest);
    assert(drive_boot(at(BootPhase::CheckLog), env, (f - n + 6 + r) as nat) == rest);
    assert(drive_boot(at(BootPhase::DirsReady), env, (f - n + 7 + r) as nat) == rest);
    assert(drive_boot(at(BootPhase::Provisioning), env, (f - n + 8 + r) as nat) == rest);
    if s.warn_data_dir {
        assert(drive_boot(at(BootPhase::DataHomeWarned), env, (f - n + 9 + r) as nat) == withd);
    }
    assert(drive_boot(at(BootPhase::DirsLog), env, (f - 1) as nat) == withd);
}

/// When the engine does not answer yet and its spawn fails, the bootstrapper
/// logs the failure and exits with 1; it starts nothing else (in particular
/// not the console) and stops nothing.
pub proof fn lemma_bootstrap_engine_failure_exits(
    data_dir: Seq<char>,
    repo: Seq<char>,
    warn_data_dir: bool,
    warn_repo: bool,
    env: BootEnv,
)
    requires
        !env.core_open,
        env.core is Err,
    ensures
        drive_boot(boot_start(data_dir, repo, warn_data_dir, warn_repo), env, boot_fuel()) == Some(
            BootTally {
                provisions: seq![spec_provision_dirs(data_dir)],
                spawns: seq![spec_repo_core_command(repo)],
                guards: seq![],
                stops: seq![],
                side_runs: seq![spec_notify(STARTING_TITLE@, STARTING_BODY@)],
                exits: seq![1],
            },
        ),
{
    let s0 = boot_start(data_dir, repo, warn_data_dir, warn_repo);
    let f = boot_fuel();
    let at = |p: BootPhase| BootView { phase: p, ..s0 };
    let g = (f - 2 - prefix_steps(s0)) as nat;
    let e = empty_tally();
    let cmd = spec_repo_core_command(repo);
    let note = spec_notify(STARTING_TITLE@, STARTING_BODY@);
    assert(drive_boot(at(BootPhase::Exited(1)), env, (g - 3) as nat) == Some(e));
    let t = BootTally { exits: seq![1], ..e };
    assert(drive_boot(at(BootPhase::CoreFailed), env, (g - 2) as nat) == Some(t)) by {
        assert(seq![1i32] + e.exits =~= seq![1i32]);
    }
    assert(drive_boot(at(BootPhase::SpawningCore), env, (g - 1) as nat) == Some(t));
    let t2 = BootTally { spawns: seq![cmd], ..t };
    assert(drive_boot(at(BootPhase::CoreLog), env, g) == Some(t2)) by {
        assert(seq![cmd] + t.spawns =~= seq![cmd]);
    }
    lemma_boot_to_core_log(at(BootPhase::AnnouncedStart), env, (f - 2) as nat);
    let dirs = spec_provision_dirs(data_dir);
    let t3 = BootTally { provisions: seq![dirs], side_runs: seq![note], ..t2 };
    assert(drive_boot(at(BootPhase::ProbingCore), env, (f - 1) as nat) == Some(t3)) by {
        assert(seq![note] + t2.side_runs =~= seq![note]);
        assert(seq![dirs] + t2.provisions =~= seq![dirs]);
    }
}

/// When the engine does not answer yet and starts, the bootstrapper guards
/// the engine's group against Ctrl+C right away, starts the console (in a
/// group of its own), and once the engine exits stops the console's group
/// (when the console started) and then the engine's group, and exits with 0:
/// no group it started is left running.
pub proof fn lemma_bootstrap_stops_every_group(
    data_dir: Seq<char>,
    repo: Seq<char>,
    warn_data_dir: bool,
    warn_repo: bool,
    env: BootEnv,
)
    requires
        !env.core_open,
        env.core is Ok,
    ensures
        ({
            let core = spec_child_pid(env.core->Ok_0);
            drive_boot(boot_start(data_dir, repo, warn_data_dir, warn_repo), env, boot_fuel()) == Some(
                BootTally {
                    provisions: seq![spec_provision_dirs(data_dir)],
                    spawns: seq![spec_repo_core_command(repo), spec_console_command(repo, false)],
                    guards: seq![core],
                    stops: stop_order(core, boot_spawned_pid(env.console)),
                    side_runs: seq![
                        spec_notify(STARTING_TITLE@, STARTING_BODY@),
                        spec_notify(READY_TITLE@, READY_BODY@),
                        spec_quiet_command("xdg-open"@, CONSOLE_URL@),
                    ],
                    exits: seq![0],
                },
            )
        }),
{
    let s0 = boot_start(data_dir, repo, warn_data_dir, warn_repo);
    let f = boot_fuel();
    let at = |p: BootPhase| BootView { phase: p, ..s0 };
    let g = (f - 2 - prefix_steps(s0)) as nat;
    let core = spec_child_pid(env.core->Ok_0);
    let cmd = spec_repo_core_command(repo);
    let ccmd = spec_console_command(repo, false);
    let note = spec_notify(STARTING_TITLE@, STARTING_BODY@);
    let tail = tail_tally(core, boot_spawned_pid(env.console));
    let t = BootTally { spawns: seq![ccmd], ..tail };
    let sg = BootView { phase: BootPhase::CoreGuarded, core_pid: Some(core), ..s0 };
    let sw = BootView { phase: BootPhase::WaitingCore, ..sg };
    let su = BootView { phase: BootPhase::CoreUp, ..sg };
    if env.core_up {
        lemma_boot_from_core_up(su, env, (g - 4) as nat, core);
    } else {
        lemma_boot_from_core_up(su, env, (g - 5) as nat, core);
        assert(drive_boot(BootView { phase: BootPhase::CoreSlow, ..sg }, env, (g - 4) as nat) == Some(t));
    }
    assert(drive_boot(sw, env, (g - 3) as nat) == Some(t));
    assert(drive_boot(sg, env, (g - 2) as nat) == Some(t));
    let t1 = BootTally { guards: seq![core], ..t };
    assert(drive_boot(at(BootPhase::SpawningCore), env, (g - 1) as nat) == Some(t1)) by {
        assert(seq![core] + t.guards =~= seq![core]);
    }
    let t2 = BootTally { spawns: seq![cmd, ccmd], ..t1 };
    assert(drive_boot(at(BootPhase::CoreLog), env, g) == Some(t2)) by {
        assert(seq![cmd] + t1.spawns =~= seq![cmd, ccmd]);
    }
    lemma_boot_to_core_log(at(BootPhase::AnnouncedStart), env, (f - 2) as nat);
    let dirs = spec_provision_dirs(data_dir);
    let t3 = BootTally { provisions: seq![dirs], side_runs: seq![note] + t2.side_runs, ..t2 };
    assert(drive_boot(at(BootPhase::ProbingCore), env, (f - 1) as nat) == Some(t3)) by {
        assert(seq![dirs] + t2.provisions =~= seq![dirs]);
    }
    assert(t3.side_runs =~= seq![
        note,
        spec_notify(READY_TITLE@, READY_BODY@),
        spec_quiet_command("xdg-open"@, CONSOLE_URL@),
    ]);
}

/// Feeds `events` to the bootstrapper in state `s`, one per step: the state
/// it ends in and the actions it issues.
pub open spec fn run_boot(s: BootView, events: Seq<BootEventView>) -> (BootView, Seq<BootActionView>)
    decreases events.len(),
{
    if events.len() == 0 {
        (s, Seq::empty())
    } else {
        let (s2, a) = boot_step(s, events[0]);
        let (s3, rest) = run_boot(s2, events.drop_first());
        (s3, seq![a] + rest)
    }
}

/// A step that records the engine's group leader guards that group against
/// Ctrl+C in the same step.
pub proof fn lemma_boot_step_guards_recorded_engine(s: BootView, e: BootEventView)
    ensures
        ({
            let (s2, a) = boot_step(s, e);
            s2.core_pid != s.core_pid ==> (s2.core_pid is Some && a == BootActionView::GuardInterrupt(s2.core_pid->0))
        }),
{
}

/// Whatever happens and wherever the run is interrupted, once the engine's
/// group leader is recorded, the Ctrl+C guard for that group has been issued:
/// from a state without an engine, after any events, a recorded engine leader
/// `p` comes with a `GuardInterrupt(p)` among the actions issued.
pub proof fn lemma_recorded_engine_is_guarded(s: BootView, events: Seq<BootEventView>)
    ensures
        ({
            let (s2, t) = run_boot(s, events);
            s2.core_pid != s.core_pid ==> (s2.core_pid is Some && t.contains(BootActionView::GuardInterrupt(s2.core_pid->0)))
        }),
    decreases events.len(),
{
    if events.len() > 0 {
        let (s2, a) = boot_step(s, events[0]);
        let rest = events.drop_first();
        lemma_boot_step_guards_recorded_engine(s, events[0]);
        lemma_recorded_engine_is_guarded(s2, rest);
        let (s3, t) = run_boot(s2, rest);
        if s3.core_pid != s2.core_pid {
            let i = choose|i: int| 0 <= i < t.len() && t[i] == BootActionView::GuardInterrupt(s3.core_pid->0);
            assert((seq![a] + t)[i + 1] == t[i]);
        } else if s2.core_pid != s.core_pid {
            assert((seq![a] + t)[0] == a);
        }
    }
}

/// Ctrl+C after the engine's group is guarded ends start-up at once: from
/// any state where start-up is still going on (or the engine is being waited
/// for), an interrupt followed by completed actions spawns, runs and waits for
/// nothing more; it logs the shutdown, stops the console's group (when the
/// console started) and then the engine's, and exits with 0.
pub proof fn lemma_interrupt_stops_start_up(s: BootView, core: i32)
    requires
        interruptible(s.phase),
        s.core_pid == Some(core),
    ensures
        ({
            let events = seq![BootEventView::Interrupted] + if s.console_pid is Some {
                seq![BootEventView::Completed, BootEventView::Completed, BootEventView::Completed]
            } else {
                seq![BootEventView::Completed, BootEventView::Completed]
            };
            let stops = match s.console_pid {
                Some(c) => seq![BootActionView::StopGroup(c), BootActionView::StopGroup(core)],
                None => seq![BootActionView::StopGroup(core)],
            };
            run_boot(s, events) == (
                BootView { phase: BootPhase::Exited(0), ..s },
                seq![BootActionView::Log(STOPPING_LOG@)] + stops + seq![BootActionView::Exit(0)],
            )
        }),
{
    reveal_with_fuel(run_boot, 5);
    let events = seq![BootEventView::Interrupted] + if s.console_pid is Some {
        seq![BootEventView::Completed, BootEventView::Completed, BootEventView::Completed]
    } else {
        seq![BootEventView::Completed, BootEventView::Completed]
    };
    let stops = match s.console_pid {
        Some(c) => seq![BootActionView::StopGroup(c), BootActionView::StopGroup(core)],
        None => seq![BootActionView::StopGroup(core)],
    };
    let (fin, t) = run_boot(s, events);
    assert(t =~= seq![BootActionView::Log(STOPPING_LOG@)] + stops + seq![BootActionView::Exit(0)]);
}

/// Whatever the state and the event, a `ProvisionDirs` action provisions the
/// run's data directory: it lists the data directory and its subdirectories,
/// all of which lie under the data directory.
pub proof fn lemma_boot_provisions_data_dir(s: BootView, e: BootEventView)
    ensures
        boot_step(s, e).1 matches BootActionView::ProvisionDirs(d) ==> {
            &&& d == spec_provision_dirs(s.data_dir)
            &&& d.len() == 6
            &&& forall|i: int| 0 <= i < 6 ==> s.data_dir.is_prefix_of(#[trigger] d[i])
        },
{
    lemma_provisioned_dirs_under_base(s.data_dir);
}

/// The state report follows the probes it reports: whatever the state and the
/// event, when a step asks whether the daemon is up, the answer `up` to that
/// probe is logged next as the daemon's line of the report; when a step asks
/// whether the model is present, the answer is logged next as the model's
/// line. Together with the header, the report is `spec_state_check(up,
/// present)` for the answers the two probes got.
pub proof fn lemma_state_report_follows_probes(s: BootView, e: BootEventView, answer: bool)
    ensures
        ({
            let (s2, a) = boot_step(s, e);
            &&& a == BootActionView::ProbeOllama ==> boot_step(s2, BootEventView::Probed(answer)).1
                == BootActionView::Log(spec_ollama_state_line(answer))
            &&& a == BootActionView::ProbeModel ==> boot_step(s2, BootEventView::Probed(answer)).1
                == BootActionView::Log(spec_model_state_line(answer))
        }),
{
}

/// A run reports the state right after provisioning the data directory: from
/// there, with the daemon's probe answered `up` and the model's `present`, it
/// logs the report `spec_state_check(up, present)`, probing the daemon before
/// its line and the model before its line.
pub proof fn lemma_state_report(s: BootView, up: bool, present: bool)
    requires
        s.phase == BootPhase::Provisioning,
    ensures
        ({
            let report = spec_state_check(up, present);
            run_boot(
                s,
                seq![
                    BootEventView::Completed,
                    BootEventView::Completed,
                    BootEventView::Completed,
                    BootEventView::Probed(up),
                    BootEventView::Completed,
                    BootEventView::Probed(present),
                ],
            ).1 == seq![
                BootActionView::Log(DIRS_READY@ + s.data_dir),
                BootActionView::Log(report[0]),
                BootActionView::ProbeOllama,
                BootActionView::Log(report[1]),
                BootActionView::ProbeModel,
                BootActionView::Log(report[2]),
            ]
        }),
{
    reveal_with_fuel(run_boot, 7);
    let events = seq![
        BootEventView::Completed,
        BootEventView::Completed,
        BootEventView::Completed,
        BootEventView::Probed(up),
        BootEventView::Completed,
        BootEventView::Probed(present),
    ];
    let report = spec_state_check(up, present);
    let t = run_boot(s, events).1;
    assert(t =~= seq![
        BootActionView::Log(DIRS_READY@ + s.data_dir),
        BootActionView::Log(report[0]),
        BootActionView::ProbeOllama,
        BootActionView::Log(report[1]),
        BootActionView::ProbeModel,
        BootActionView::Log(report[2]),
    ]);
}

/// The phases of the shutdown, once start-up has been ended.
pub open spec fn shutting_down(p: BootPhase) -> bool {
    p == BootPhase::StoppingLog || p == BootPhase::StoppedConsole || p == BootPhase::StoppedCore
        || p is Exited
}

/// An action that starts or waits for something.
pub open spec fn starts_or_waits(a: BootActionView) -> bool {
    a is Spawn || a is Run || a is WaitPort || a is WaitExit || a is AutoProvision
}

proof fn lemma_shutdown_starts_nothing(s: BootView, events: Seq<BootEventView>)
    requires
        shutting_down(s.phase),
    ensures
        forall|i: int| 0 <= i < run_boot(s, events).1.len() ==> !starts_or_waits(#[trigger] run_boot(s, events).1[i]),
    decreases events.len(),
{
    if events.len() > 0 {
        let (s2, a) = boot_step(s, events[0]);
        lemma_shutdown_starts_nothing(s2, events.drop_first());
        let t = run_boot(s2, events.drop_first()).1;
        assert forall|i: int| 0 <= i < (seq![a] + t).len() implies !starts_or_waits(#[trigger] (seq![a] + t)[i]) by {
            if i > 0 {
                assert((seq![a] + t)[i] == t[i - 1]);
            }
        }
    }
}

/// Ctrl+C ends start-up at once in every phase from the engine's guard up to
/// waiting for the engine to exit: the interrupt goes straight to the
/// shutdown (logging it), and whatever events follow, nothing is spawned, run
/// or waited for any more.
pub proof fn lemma_interrupt_ends_start_up(s: BootView, events: Seq<BootEventView>)
    requires
        s.phase == BootPhase::CoreGuarded || s.phase == BootPhase::WaitingCore || s.phase == BootPhase::CoreSlow
            || s.phase == BootPhase::CoreUp || s.phase == BootPhase::SpawningConsole || s.phase
            == BootPhase::ConsoleFailed || s.phase == BootPhase::WaitingConsole || s.phase == BootPhase::ConsoleSlow
            || s.phase == BootPhase::ReadyLog || s.phase == BootPhase::ReadyNotified || s.phase == BootPhase::Opened
            || s.phase == BootPhase::RunningLog || s.phase == BootPhase::Running,
    ensures
        boot_step(s, BootEventView::Interrupted) == (
            BootView { phase: BootPhase::StoppingLog, ..s },
            BootActionView::Log(STOPPING_LOG@),
        ),
        ({
            let t = run_boot(boot_step(s, BootEventView::Interrupted).0, events).1;
            forall|i: int| 0 <= i < t.len() ==> !starts_or_waits(#[trigger] t[i])
        }),
{
    lemma_shutdown_starts_nothing(BootView { phase: BootPhase::StoppingLog, ..s }, events);
}

} // verus!
