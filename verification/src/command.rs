//! The external commands the launcher runs, as plain descriptions that the
//! application turns into processes: the engine, the console, desktop
//! notifications, the Ollama daemon and the browser.
use vstd::prelude::*;

verus! {

/// Address of the local engine.
pub const CORE_ADDR: &'static str = "127.0.0.1:8787";

/// Address of the local console.
pub const CONSOLE_ADDR: &'static str = "127.0.0.1:3100";

/// Page of the console that is opened once everything is up.
pub const CONSOLE_URL: &'static str = "http://127.0.0.1:3100/console/moduller";

/// Base URL of the engine, handed to the console.
pub const CORE_URL: &'static str = "http://127.0.0.1:8787";

/// A command to run: program, arguments, working directory, extra
/// environment, and how the process is attached.
#[derive(Debug)]
pub struct CommandSpec {
    pub program: String,
    pub args: Vec<String>,
    /// Working directory; `None` keeps the launcher's own.
    pub current_dir: Option<String>,
    /// Variables set for the child, in order.
    pub envs: Vec<(String, String)>,
    /// Standard output and error go to the null device.
    pub silent: bool,
    /// The child starts a session (and process group) of its own, so that the
    /// whole tree can be stopped together.
    pub own_group: bool,
}

/// The mathematical model of a [`CommandSpec`].
pub struct CommandView {
    pub program: Seq<char>,
    pub args: Seq<Seq<char>>,
    pub current_dir: Option<Seq<char>>,
    pub envs: Seq<(Seq<char>, Seq<char>)>,
    pub silent: bool,
    pub own_group: bool,
}

impl View for CommandSpec {
    type V = CommandView;

    open spec fn view(&self) -> CommandView {
        CommandView {
            program: self.program@,
            args: self.args.deep_view(),
            current_dir: self.current_dir.deep_view(),
            envs: self.envs.deep_view(),
            silent: self.silent,
            own_group: self.own_group,
        }
    }
}

/// Appends `a` to `args`.
fn push_arg(args: &mut Vec<String>, a: &str)
    ensures
        final(args).deep_view() == old(args).deep_view().push(a@),
{
    let ghost before = args.deep_view();
    args.push(String::from_str(a));
    assert(args.deep_view() =~= before.push(a@));
}

/// Appends the variable `key=value` to `envs`.
fn push_env(envs: &mut Vec<(String, String)>, key: &str, value: &str)
    ensures
        final(envs).deep_view() == old(envs).deep_view().push((key@, value@)),
{
    let ghost before = envs.deep_view();
    envs.push((String::from_str(key), String::from_str(value)));
    assert(envs.deep_view() =~= before.push((key@, value@)));
}

/// Arguments that serve the engine's web application on the engine address.
pub open spec fn uvicorn_app_args() -> Seq<Seq<char>> {
    seq!["brainmux_core.api.app:app"@, "--host"@, "127.0.0.1"@, "--port"@, "8787"@]
}

/// The engine run by a bundled Python interpreter.
pub open spec fn spec_bundled_core_command(python: Seq<char>, modules_dir: Option<Seq<char>>) -> CommandView {
    CommandView {
        program: python,
        args: seq!["-m"@, "uvicorn"@] + uvicorn_app_args(),
        current_dir: None,
        envs: match modules_dir {
            Some(md) => seq![("BRAINMUX_MODULES_DIR"@, md)],
            None => seq![],
        },
        silent: false,
        own_group: true,
    }
}

/// The engine run from the product checkout `repo` through `uv`.
pub open spec fn spec_repo_core_command(repo: Seq<char>) -> CommandView {
    CommandView {
        program: "uv"@,
        args: seq!["run"@, "--project"@, "apps/core"@, "--env-file"@, ".env"@, "--"@, "uvicorn"@]
            + uvicorn_app_args() + seq!["--app-dir"@, "apps/core/src"@],
        current_dir: Some(repo),
        envs: seq![],
        silent: false,
        own_group: true,
    }
}

/// Appends the arguments of [`uvicorn_app_args`].
fn push_uvicorn_app_args(args: &mut Vec<String>)
    ensures
        final(args).deep_view() == old(args).deep_view() + uvicorn_app_args(),
{
    let ghost before = args.deep_view();
    push_arg(args, "brainmux_core.api.app:app");
    push_arg(args, "--host");
    push_arg(args, "127.0.0.1");
    push_arg(args, "--port");
    push_arg(args, "8787");
    assert(args.deep_view() =~= before + uvicorn_app_args());
}

/// The engine command: the bundled interpreter when there is one (with the
/// bundled modules directory in `BRAINMUX_MODULES_DIR` when there is one),
/// otherwise `uv` in the product checkout `repo`.
pub fn engine_command(core_python: &Option<String>, modules_dir: &Option<String>, repo: &str) -> (cmd: CommandSpec)
    ensures
        cmd@ == match core_python {
            Some(py) => spec_bundled_core_command(py@, modules_dir.deep_view()),
            None => spec_repo_core_command(repo@),
        },
{
    match core_python {
        Some(py) => {
            let mut args: Vec<String> = Vec::new();
            push_arg(&mut args, "-m");
            push_arg(&mut args, "uvicorn");
            push_uvicorn_app_args(&mut args);
            let mut envs: Vec<(String, String)> = Vec::new();
            match modules_dir {
                Some(md) => push_env(&mut envs, "BRAINMUX_MODULES_DIR", md.as_str()),
                None => {},
            }
            let cmd = CommandSpec {
                program: py.clone(),
                args,
                current_dir: None,
                envs,
                silent: false,
                own_group: true,
            };
            assert(cmd.args.deep_view() =~= seq!["-m"@, "uvicorn"@] + uvicorn_app_args());
            assert(cmd.envs.deep_view() =~= spec_bundled_core_command(py@, modules_dir.deep_view()).envs);
            cmd
        },
        None => {
            let mut args: Vec<String> = Vec::new();
            push_arg(&mut args, "run");
            push_arg(&mut args, "--project");
            push_arg(&mut args, "apps/core");
            push_arg(&mut args, "--env-file");
            push_arg(&mut args, ".env");
            push_arg(&mut args, "--");
            push_arg(&mut args, "uvicorn");
            push_uvicorn_app_args(&mut args);
            push_arg(&mut args, "--app-dir");
            push_arg(&mut args, "apps/core/src");
            let cmd = CommandSpec {
                program: String::from_str("uv"),
                args,
                current_dir: Some(String::from_str(repo)),
                envs: Vec::new(),
                silent: false,
                own_group: true,
            };
            assert(cmd.args.deep_view() =~= spec_repo_core_command(repo@).args);
            assert(cmd.envs.deep_view() =~= Seq::<(Seq<char>, Seq<char>)>::empty());
            cmd
        },
    }
}

/// Arguments that start the console's development server on the console port.
pub open spec fn console_args() -> Seq<Seq<char>> {
    seq!["--prefix"@, "apps/app"@, "run"@, "dev"@, "--"@, "-p"@, "3100"@]
}

/// The console run from the product checkout `repo`, pointed at the engine.
/// With `gate_off`, the console's sign-in gate is switched off by clearing
/// its Supabase settings (the desktop window serves it on 127.0.0.1, where the
/// gate cannot keep its cookie).
pub open spec fn spec_console_command(repo: Seq<char>, gate_off: bool) -> CommandView {
    CommandView {
        program: "npm"@,
        args: console_args(),
        current_dir: Some(repo),
        envs: if gate_off {
            seq![
                ("NEXT_PUBLIC_CORE_URL"@, CORE_URL@),
                ("NEXT_PUBLIC_SUPABASE_URL"@, ""@),
                ("NEXT_PUBLIC_SUPABASE_ANON_KEY"@, ""@),
            ]
        } else {
            seq![("NEXT_PUBLIC_CORE_URL"@, CORE_URL@)]
        },
        silent: false,
        own_group: true,
    }
}

/// The console command; see [`spec_console_command`].
pub fn npm_console_command(repo: &str, gate_off: bool) -> (cmd: CommandSpec)
    ensures
        cmd@ == spec_console_command(repo@, gate_off),
        cmd@.envs.len() >= 1,
        cmd@.envs[0] == ("NEXT_PUBLIC_CORE_URL"@, "http://127.0.0.1:8787"@),
        gate_off ==> cmd@.envs.subrange(1, cmd@.envs.len() as int) == seq![
            ("NEXT_PUBLIC_SUPABASE_URL"@, ""@),
            ("NEXT_PUBLIC_SUPABASE_ANON_KEY"@, ""@),
        ],
        !gate_off ==> cmd@.envs.len() == 1,
{
    let mut args: Vec<String> = Vec::new();
    push_arg(&mut args, "--prefix");
    push_arg(&mut args, "apps/app");
    push_arg(&mut args, "run");
    push_arg(&mut args, "dev");
    push_arg(&mut args, "--");
    push_arg(&mut args, "-p");
    push_arg(&mut args, "3100");
    let mut envs: Vec<(String, String)> = Vec::new();
    push_env(&mut envs, "NEXT_PUBLIC_CORE_URL", CORE_URL);
    if gate_off {
        push_env(&mut envs, "NEXT_PUBLIC_SUPABASE_URL", "");
        push_env(&mut envs, "NEXT_PUBLIC_SUPABASE_ANON_KEY", "");
    }
    let cmd = CommandSpec {
        program: String::from_str("npm"),
        args,
        current_dir: Some(String::from_str(repo)),
        envs,
        silent: false,
        own_group: true,
    };
    assert(cmd.args.deep_view() =~= console_args());
    assert(cmd.envs.deep_view() =~= spec_console_command(repo@, gate_off).envs);
    assert(cmd.envs.deep_view().subrange(1, cmd.envs.deep_view().len() as int) =~= if gate_off {
        seq![("NEXT_PUBLIC_SUPABASE_URL"@, ""@), ("NEXT_PUBLIC_SUPABASE_ANON_KEY"@, ""@)]
    } else {
        Seq::empty()
    });
    cmd
}

/// Every console is pointed at the local engine: for either gate setting its
/// first variable sets `NEXT_PUBLIC_CORE_URL` to `http://127.0.0.1:8787`; the
/// gate setting only adds the two cleared Supabase variables after it, and
/// changes nothing else of the command.
pub proof fn lemma_console_points_at_engine(repo: Seq<char>, gate_off: bool)
    ensures
        spec_console_command(repo, gate_off).envs.len() >= 1,
        spec_console_command(repo, gate_off).envs[0] == ("NEXT_PUBLIC_CORE_URL"@, "http://127.0.0.1:8787"@),
        spec_console_command(repo, true).envs == spec_console_command(repo, false).envs + seq![
            ("NEXT_PUBLIC_SUPABASE_URL"@, ""@),
            ("NEXT_PUBLIC_SUPABASE_ANON_KEY"@, ""@),
        ],
        spec_console_command(repo, true).program == spec_console_command(repo, false).program,
        spec_console_command(repo, true).args == spec_console_command(repo, false).args,
        spec_console_command(repo, true).current_dir == Some(repo),
        spec_console_command(repo, false).current_dir == Some(repo),
{
    assert(spec_console_command(repo, true).envs =~= spec_console_command(repo, false).envs + seq![
        ("NEXT_PUBLIC_SUPABASE_URL"@, ""@),
        ("NEXT_PUBLIC_SUPABASE_ANON_KEY"@, ""@),
    ]);
}

/// A desktop notification through `notify-send`, titled `title`.
pub open spec fn spec_notify(title: Seq<char>, body: Seq<char>) -> CommandView {
    CommandView {
        program: "notify-send"@,
        args: seq!["-a"@, "brainmux"@, "-i"@, "brainmux"@, title, body],
        current_dir: None,
        envs: seq![],
        silent: true,
        own_group: false,
    }
}

/// The command that shows a desktop notification (best effort: the
/// application ignores a failure to start it).
pub fn notify(title: &str, body: &str) -> (cmd: CommandSpec)
    ensures
        cmd@ == spec_notify(title@, body@),
{
    let mut args: Vec<String> = Vec::new();
    push_arg(&mut args, "-a");
    push_arg(&mut args, "brainmux");
    push_arg(&mut args, "-i");
    push_arg(&mut args, "brainmux");
    push_arg(&mut args, title);
    push_arg(&mut args, body);
    let cmd = CommandSpec {
        program: String::from_str("notify-send"),
        args,
        current_dir: None,
        envs: Vec::new(),
        silent: true,
        own_group: false,
    };
    assert(cmd.args.deep_view() =~= spec_notify(title@, body@).args);
    assert(cmd.envs.deep_view() =~= Seq::<(Seq<char>, Seq<char>)>::empty());
    cmd
}

/// A program with arguments, silent, in the launcher's own process group.
pub open spec fn spec_quiet_command(program: Seq<char>, arg: Seq<char>) -> CommandView {
    CommandView {
        program,
        args: seq![arg],
        current_dir: None,
        envs: seq![],
        silent: true,
        own_group: false,
    }
}

fn quiet_command(program: &str, arg: &str) -> (cmd: CommandSpec)
    ensures
        cmd@ == spec_quiet_command(program@, arg@),
{
    let mut args: Vec<String> = Vec::new();
    push_arg(&mut args, arg);
    let cmd = CommandSpec {
        program: String::from_str(program),
        args,
        current_dir: None,
        envs: Vec::new(),
        silent: true,
        own_group: false,
    };
    assert(cmd.args.deep_view() =~= seq![arg@]);
    assert(cmd.envs.deep_view() =~= Seq::<(Seq<char>, Seq<char>)>::empty());
    cmd
}

/// Opens the console page in the desktop's browser.
pub fn open_console_command() -> (cmd: CommandSpec)
    ensures
        cmd@ == spec_quiet_command("xdg-open"@, CONSOLE_URL@),
{
    quiet_command("xdg-open", CONSOLE_URL)
}

/// Starts the Ollama daemon.
pub fn ollama_serve_command() -> (cmd: CommandSpec)
    ensures
        cmd@ == spec_quiet_command("ollama"@, "serve"@),
{
    quiet_command("ollama", "serve")
}

} // verus!
