//! The desktop launcher: provision the data directory, start the engine and
//! the console each in a process group of its own, hand over each group
//! leader as soon as it is started (so that it is stopped on exit, whenever
//! that comes), and wait for them. The decisions are a state machine; the
//! application performs each action and reports back.
use vstd::prelude::*;
use crate::command::{
    CommandSpec, CommandView, CONSOLE_ADDR, CORE_ADDR, engine_command, npm_console_command,
    spec_bundled_core_command, spec_console_command, spec_repo_core_command,
};
use crate::paths::{join_path, provision_dirs, spec_join, spec_provision_dirs};
use crate::process::{child_pid, spec_child_pid};

verus! {

/// What the desktop package embeds: the bundled engine interpreter and the
/// bundled modules directory, when present (otherwise the engine runs from
/// the product checkout).
#[derive(Debug)]
pub struct Bundle {
    pub core_python: Option<String>,
    pub modules_dir: Option<String>,
}

/// The mathematical model of a [`Bundle`].
pub struct BundleView {
    pub core_python: Option<Seq<char>>,
    pub modules_dir: Option<Seq<char>>,
}

impl View for Bundle {
    type V = BundleView;

    open spec fn view(&self) -> BundleView {
        BundleView { core_python: self.core_python.deep_view(), modules_dir: self.modules_dir.deep_view() }
    }
}

/// Where the bundled engine interpreter lies under the resource directory.
pub const BUNDLED_PYTHON: &'static str = "bundle/core-bundle/py/bin/python3";

/// Where the bundled modules lie under the resource directory.
pub const BUNDLED_MODULES: &'static str = "bundle/modules";

/// The candidate bundle locations under the resource directory `res`: the
/// interpreter and the modules directory (each used only if it exists).
pub fn bundle_candidates(res: &str) -> (c: (String, String))
    ensures
        c.0@ == spec_join(res@, BUNDLED_PYTHON@),
        c.1@ == spec_join(res@, BUNDLED_MODULES@),
{
    (join_path(res, BUNDLED_PYTHON), join_path(res, BUNDLED_MODULES))
}

/// The engine command for bundle `b`, with the product checkout `repo`.
pub open spec fn spec_core_command(b: BundleView, repo: Seq<char>) -> CommandView {
    match b.core_python {
        Some(py) => spec_bundled_core_command(py, b.modules_dir),
        None => spec_repo_core_command(repo),
    }
}

/// The engine command: the bundled interpreter when the bundle has one,
/// otherwise `uv` in the product checkout `repo`.
pub fn core_command(b: &Bundle, repo: &str) -> (cmd: CommandSpec)
    ensures
        cmd@ == spec_core_command(b@, repo@),
{
    engine_command(&b.core_python, &b.modules_dir, repo)
}

/// Whatever the bundle, the engine serves on the loopback address only,
/// on port 8787: its arguments hold `--host 127.0.0.1` and `--port 8787`.
pub proof fn lemma_engine_listens_on_loopback(b: BundleView, repo: Seq<char>)
    ensures
        ({
            let args = spec_core_command(b, repo).args;
            &&& exists|i: int| 0 <= i < args.len() - 1 && #[trigger] args[i] == "--host"@ && args[i + 1] == "127.0.0.1"@
            &&& exists|i: int| 0 <= i < args.len() - 1 && #[trigger] args[i] == "--port"@ && args[i + 1] == "8787"@
        }),
{
    let args = spec_core_command(b, repo).args;
    let k: int = if b.core_python is Some { 2 } else { 7 };
    assert(args[k + 1] == "--host"@ && args[k + 2] == "127.0.0.1"@);
    assert(args[k + 3] == "--port"@ && args[k + 4] == "8787"@);
}

/// The console command for the desktop window: the console's development
/// server from the product checkout `repo`, with its sign-in gate off. The
/// bundle does not change it (the bundled static console is not there yet).
pub fn console_command(_bundle: &Bundle, repo: &str) -> (cmd: CommandSpec)
    ensures
        cmd@ == spec_console_command(repo@, true),
{
    npm_console_command(repo, true)
}

/// The log line for an engine that could not be started.
pub open spec fn core_failed_line(reason: Seq<char>) -> Seq<char> {
    "HATA: çekirdek başlatılamadı ("@ + reason + ")"@
}

/// The log line for a console that could not be started.
pub open spec fn console_failed_line(reason: Seq<char>) -> Seq<char> {
    "UYARI: konsol başlatılamadı ("@ + reason + ")"@
}

/// What the application is asked to do next.
#[derive(Debug)]
pub enum StartAction {
    /// Create these directories, each with its parents, ignoring failures.
    ProvisionDirs(Vec<String>),
    /// Start the command; report its process id, or why it could not start.
    Spawn(CommandSpec),
    /// Print a log line.
    Log(String),
    /// Keep this process-group leader, to stop its group when the
    /// application exits (whenever that happens).
    Remember(i32),
    /// Wait for the address to accept connections; report whether it did.
    WaitPort(String),
    /// Start-up is over: the process-group leaders started, and whether the
    /// console is ready.
    Finish(Vec<i32>, bool),
}

/// The mathematical model of a [`StartAction`].
pub enum StartActionView {
    ProvisionDirs(Seq<Seq<char>>),
    Spawn(CommandView),
    Log(Seq<char>),
    Remember(i32),
    WaitPort(Seq<char>),
    Finish(Seq<i32>, bool),
}

impl View for StartAction {
    type V = StartActionView;

    open spec fn view(&self) -> StartActionView {
        match self {
            StartAction::ProvisionDirs(d) => StartActionView::ProvisionDirs(d.deep_view()),
            StartAction::Spawn(c) => StartActionView::Spawn(c@),
            StartAction::Log(s) => StartActionView::Log(s@),
            StartAction::Remember(p) => StartActionView::Remember(*p),
            StartAction::WaitPort(a) => StartActionView::WaitPort(a@),
            StartAction::Finish(p, r) => StartActionView::Finish(p@, *r),
        }
    }
}

/// What happened to the last action.
#[derive(Debug)]
pub enum StartEvent {
    /// The action is over.
    Completed,
    /// The command started with this process id.
    Spawned(u32),
    /// The command could not be started, for the given reason.
    SpawnFailed(String),
    /// The wait is over: whether the address accepted a connection.
    PortWaited(bool),
}

/// The mathematical model of a [`StartEvent`].
pub enum StartEventView {
    Completed,
    Spawned(u32),
    SpawnFailed(Seq<char>),
    PortWaited(bool),
}

impl View for StartEvent {
    type V = StartEventView;

    open spec fn view(&self) -> StartEventView {
        match self {
            StartEvent::Completed => StartEventView::Completed,
            StartEvent::Spawned(id) => StartEventView::Spawned(*id),
            StartEvent::SpawnFailed(r) => StartEventView::SpawnFailed(r@),
            StartEvent::PortWaited(b) => StartEventView::PortWaited(*b),
        }
    }
}

/// Which action was issued last.
#[derive(PartialEq, Eq, Structural, Clone, Copy, Debug)]
pub enum StartPhase {
    Provisioning,
    SpawningCore,
    CoreRecorded,
    CoreFailed,
    WaitingCore,
    SpawningConsole,
    ConsoleRecorded,
    ConsoleFailed,
    WaitingConsole,
    /// Over, with whether the console is ready.
    Finished(bool),
}

/// A start-up in progress.
#[derive(Debug)]
pub struct Start {
    pub phase: StartPhase,
    /// Leaders of the process groups started so far.
    pub pids: Vec<i32>,
    pub bundle: Bundle,
    pub repo: String,
}

/// The mathematical model of a [`Start`].
pub struct StartView {
    pub phase: StartPhase,
    pub pids: Seq<i32>,
    pub bundle: BundleView,
    pub repo: Seq<char>,
}

impl View for Start {
    type V = StartView;

    open spec fn view(&self) -> StartView {
        StartView { phase: self.phase, pids: self.pids@, bundle: self.bundle@, repo: self.repo@ }
    }
}

/// The reason a spawn event gives for a failure (none for other events).
pub open spec fn failure_reason(e: StartEventView) -> Seq<char> {
    match e {
        StartEventView::SpawnFailed(r) => r,
        _ => Seq::empty(),
    }
}

/// The next state and action after `e` in state `s`. Each started child is
/// recorded as a group leader and handed over at once, in the same step, to
/// be stopped on exit; a child that cannot start is logged and
/// start-up goes on. The engine's address is waited for either way, then the
/// console is started and its address waited for; whether that wait succeeds
/// is whether start-up reports ready.
pub open spec fn start_step(s: StartView, e: StartEventView) -> (StartView, StartActionView) {
    match s.phase {
        StartPhase::Provisioning => (
            StartView { phase: StartPhase::SpawningCore, ..s },
            StartActionView::Spawn(spec_core_command(s.bundle, s.repo)),
        ),
        StartPhase::SpawningCore => match e {
            StartEventView::Spawned(id) => (
                StartView { phase: StartPhase::CoreRecorded, pids: s.pids.push(spec_child_pid(id)), ..s },
                StartActionView::Remember(spec_child_pid(id)),
            ),
            _ => (
                StartView { phase: StartPhase::CoreFailed, ..s },
                StartActionView::Log(core_failed_line(failure_reason(e))),
            ),
        },
        StartPhase::CoreRecorded | StartPhase::CoreFailed => (
            StartView { phase: StartPhase::WaitingCore, ..s },
            StartActionView::WaitPort(CORE_ADDR@),
        ),
        StartPhase::WaitingCore => (
            StartView { phase: StartPhase::SpawningConsole, ..s },
            StartActionView::Spawn(spec_console_command(s.repo, true)),
        ),
        StartPhase::SpawningConsole => match e {
            StartEventView::Spawned(id) => (
                StartView { phase: StartPhase::ConsoleRecorded, pids: s.pids.push(spec_child_pid(id)), ..s },
                StartActionView::Remember(spec_child_pid(id)),
            ),
            _ => (
                StartView { phase: StartPhase::ConsoleFailed, ..s },
                StartActionView::Log(console_failed_line(failure_reason(e))),
            ),
        },
        StartPhase::ConsoleRecorded | StartPhase::ConsoleFailed => (
            StartView { phase: StartPhase::WaitingConsole, ..s },
            StartActionView::WaitPort(CONSOLE_ADDR@),
        ),
        StartPhase::WaitingConsole => {
            let ready = match e {
                StartEventView::PortWaited(b) => b,
                _ => false,
            };
            (StartView { phase: StartPhase::Finished(ready), ..s }, StartActionView::Finish(s.pids, ready))
        },
        StartPhase::Finished(ready) => (s, StartActionView::Finish(s.pids, ready)),
    }
}

fn clone_text(o: &Option<String>) -> (r: Option<String>)
    ensures
        r.deep_view() == o.deep_view(),
{
    match o {
        Some(s) => Some(s.clone()),
        None => None,
    }
}

fn failure_line(prefix: &str, reason: &str) -> (line: String)
    ensures
        line@ == prefix@ + reason@ + ")"@,
{
    String::from_str(prefix).concat(reason).concat(")")
}

/// Starts the launcher with bundle `bundle`, the product checkout `repo` and
/// the data directory `data_dir`: the first action provisions the data
/// directory.
pub fn start(bundle: &Bundle, repo: &str, data_dir: &str) -> (res: (Start, StartAction))
    ensures
        res.0@ == (StartView { phase: StartPhase::Provisioning, pids: Seq::empty(), bundle: bundle@, repo: repo@ }),
        res.1@ == StartActionView::ProvisionDirs(spec_provision_dirs(data_dir@)),
{
    let s = Start {
        phase: StartPhase::Provisioning,
        pids: Vec::new(),
        bundle: Bundle { core_python: clone_text(&bundle.core_python), modules_dir: clone_text(&bundle.modules_dir) },
        repo: String::from_str(repo),
    };
    assert(s.pids@ =~= Seq::<i32>::empty());
    (s, StartAction::ProvisionDirs(provision_dirs(data_dir)))
}

impl Start {
    /// Takes in what happened to the last action and returns the next one.
    pub fn step(&mut self, e: StartEvent) -> (a: StartAction)
        ensures
            final(self)@ == start_step(old(self)@, e@).0,
            a@ == start_step(old(self)@, e@).1,
    {
        match self.phase {
            StartPhase::Provisioning => {
                self.phase = StartPhase::SpawningCore;
                StartAction::Spawn(core_command(&self.bundle, self.repo.as_str()))
            },
            StartPhase::SpawningCore => match e {
                StartEvent::Spawned(id) => {
                    let pid = child_pid(id);
                    self.pids.push(pid);
                    self.phase = StartPhase::CoreRecorded;
                    StartAction::Remember(pid)
                },
                StartEvent::SpawnFailed(reason) => {
                    self.phase = StartPhase::CoreFailed;
                    StartAction::Log(failure_line("HATA: çekirdek başlatılamadı (", reason.as_str()))
                },
                _ => {
                    proof {
                        reveal_strlit("");
                    }
                    self.phase = StartPhase::CoreFailed;
                    StartAction::Log(failure_line("HATA: çekirdek başlatılamadı (", ""))
                },
            },
            StartPhase::CoreRecorded | StartPhase::CoreFailed => {
                self.phase = StartPhase::WaitingCore;
                StartAction::WaitPort(String::from_str(CORE_ADDR))
            },
            StartPhase::WaitingCore => {
                self.phase = StartPhase::SpawningConsole;
                StartAction::Spawn(console_command(&self.bundle, self.repo.as_str()))
            },
            StartPhase::SpawningConsole => match e {
                StartEvent::Spawned(id) => {
                    let pid = child_pid(id);
                    self.pids.push(pid);
                    self.phase = StartPhase::ConsoleRecorded;
                    StartAction::Remember(pid)
                },
                StartEvent::SpawnFailed(reason) => {
                    self.phase = StartPhase::ConsoleFailed;
                    StartAction::Log(failure_line("UYARI: konsol başlatılamadı (", reason.as_str()))
                },
                _ => {
                    proof {
                        reveal_strlit("");
                    }
                    self.phase = StartPhase::ConsoleFailed;
                    StartAction::Log(failure_line("UYARI: konsol başlatılamadı (", ""))
                },
            },
            StartPhase::ConsoleRecorded | StartPhase::ConsoleFailed => {
                self.phase = StartPhase::WaitingConsole;
                StartAction::WaitPort(String::from_str(CONSOLE_ADDR))
            },
            StartPhase::WaitingConsole => {
                let ready = match e {
                    StartEvent::PortWaited(b) => b,
                    _ => false,
                };
                self.phase = StartPhase::Finished(ready);
                StartAction::Finish(self.pids.clone(), ready)
            },
            StartPhase::Finished(ready) => StartAction::Finish(self.pids.clone(), ready),
        }
    }
}

/// Feeds `events` to a start-up in state `s`, one per step: the state it
/// ends in and the actions it issues.
pub open spec fn run_start(s: StartView, events: Seq<StartEventView>) -> (StartView, Seq<StartActionView>)
    decreases events.len(),
{
    if events.len() == 0 {
        (s, Seq::empty())
    } else {
        let (s2, a) = start_step(s, events[0]);
        let (s3, rest) = run_start(s2, events.drop_first());
        (s3, seq![a] + rest)
    }
}

/// What a spawn reports: the child's id, or why it could not start.
pub open spec fn spawn_event(r: Result<u32, Seq<char>>) -> StartEventView {
    match r {
        Ok(id) => StartEventView::Spawned(id),
        Err(reason) => StartEventView::SpawnFailed(reason),
    }
}

/// What follows a spawn's report: the hand-over of the new group leader, or
/// the log line of the failure.
pub open spec fn after_spawn(r: Result<u32, Seq<char>>, line: spec_fn(Seq<char>) -> Seq<char>) -> StartActionView {
    match r {
        Ok(id) => StartActionView::Remember(spec_child_pid(id)),
        Err(reason) => StartActionView::Log(line(reason)),
    }
}

/// The group leader a spawn adds, if any.
pub open spec fn spawned_pid(r: Result<u32, Seq<char>>) -> Seq<i32> {
    match r {
        Ok(id) => seq![spec_child_pid(id)],
        Err(_) => Seq::empty(),
    }
}

/// The events a start-up receives, answering each action in turn, when the
/// engine's spawn gives `core`, the engine's address is up or not
/// (`core_up`), the console's spawn gives `console` and the console's address
/// is up or not (`console_up`).
pub open spec fn start_events(
    core: Result<u32, Seq<char>>,
    core_up: bool,
    console: Result<u32, Seq<char>>,
    console_up: bool,
) -> Seq<StartEventView> {
    seq![
        StartEventView::Completed,
        spawn_event(core),
        StartEventView::Completed,
        StartEventView::PortWaited(core_up),
        spawn_event(console),
        StartEventView::Completed,
        StartEventView::PortWaited(console_up),
    ]
}

/// A start-up of `bundle` with checkout `repo`, answered as in
/// [`start_events`], spawns the engine and then the console (the console
/// even when the engine could not start), hands over each group leader right
/// after its spawn (or logs the failure), waits for the engine's and then the
/// console's address, and finishes with the leaders of exactly the process
/// groups it started, in that order, ready exactly when the console's
/// address came up.
pub proof fn lemma_start_runs_both_and_records_groups(
    bundle: BundleView,
    repo: Seq<char>,
    core: Result<u32, Seq<char>>,
    core_up: bool,
    console: Result<u32, Seq<char>>,
    console_up: bool,
)
    ensures
        ({
            let s0 = StartView { phase: StartPhase::Provisioning, pids: Seq::empty(), bundle, repo };
            let pids = spawned_pid(core) + spawned_pid(console);
            run_start(s0, start_events(core, core_up, console, console_up)) == (
                StartView { phase: StartPhase::Finished(console_up), pids, bundle, repo },
                seq![
                    StartActionView::Spawn(spec_core_command(bundle, repo)),
                    after_spawn(core, |r: Seq<char>| core_failed_line(r)),
                    StartActionView::WaitPort(CORE_ADDR@),
                    StartActionView::Spawn(spec_console_command(repo, true)),
                    after_spawn(console, |r: Seq<char>| console_failed_line(r)),
                    StartActionView::WaitPort(CONSOLE_ADDR@),
                    StartActionView::Finish(pids, console_up),
                ],
            )
        }),
{
    reveal_with_fuel(run_start, 8);
    let s0 = StartView { phase: StartPhase::Provisioning, pids: Seq::empty(), bundle, repo };
    let events = start_events(core, core_up, console, console_up);
    let pids = spawned_pid(core) + spawned_pid(console);
    let (fin, trace) = run_start(s0, events);
    assert(fin.pids =~= pids);
    assert(trace =~= seq![
        StartActionView::Spawn(spec_core_command(bundle, repo)),
        after_spawn(core, |r: Seq<char>| core_failed_line(r)),
        StartActionView::WaitPort(CORE_ADDR@),
        StartActionView::Spawn(spec_console_command(repo, true)),
        after_spawn(console, |r: Seq<char>| console_failed_line(r)),
        StartActionView::WaitPort(CONSOLE_ADDR@),
        StartActionView::Finish(pids, console_up),
    ]);
}

/// The group leaders handed over (by `Remember`) in `actions`, in order.
pub open spec fn handed_over(actions: Seq<StartActionView>) -> Seq<i32>
    decreases actions.len(),
{
    if actions.len() == 0 {
        Seq::empty()
    } else {
        match actions[0] {
            StartActionView::Remember(p) => seq![p] + handed_over(actions.drop_first()),
            _ => handed_over(actions.drop_first()),
        }
    }
}

/// A single step records a new group leader exactly when it hands that
/// leader over.
pub proof fn lemma_start_step_hands_over(s: StartView, e: StartEventView)
    ensures
        ({
            let (s2, a) = start_step(s, e);
            match a {
                StartActionView::Remember(p) => s2.pids == s.pids.push(p),
                _ => s2.pids == s.pids,
            }
        }),
{
}

/// Whatever happens and whenever start-up stops being driven (the
/// application may exit at any point), the group leaders handed over so far
/// are exactly the groups started so far, in order: from a start-up that has
/// started nothing, `run_start(s, events).0.pids == handed_over(trace)`.
/// Stopping the handed-over groups on exit (see `teardown`) therefore
/// reaches every child started, at any moment.
pub proof fn lemma_started_groups_are_handed_over(s: StartView, events: Seq<StartEventView>)
    ensures
        run_start(s, events).0.pids == s.pids + handed_over(run_start(s, events).1),
    decreases events.len(),
{
    if events.len() == 0 {
        assert(s.pids + handed_over(Seq::<StartActionView>::empty()) =~= s.pids);
    } else {
        let (s2, a) = start_step(s, events[0]);
        let rest = events.drop_first();
        lemma_start_step_hands_over(s, events[0]);
        lemma_started_groups_are_handed_over(s2, rest);
        let t = run_start(s2, rest).1;
        assert((seq![a] + t).drop_first() =~= t);
        assert((seq![a] + t)[0] == a);
        match a {
            StartActionView::Remember(p) => {
                assert(s.pids + (seq![p] + handed_over(t)) =~= s.pids.push(p) + handed_over(t));
            },
            _ => {},
        }
    }
}

} // verus!
