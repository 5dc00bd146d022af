use brainmux::command::{notify, ollama_serve_command, open_console_command, CommandSpec};
use brainmux::launcher::{bundle_candidates, console_command, core_command, Bundle};

fn args(c: &CommandSpec) -> Vec<&str> {
    c.args.iter().map(|a| a.as_str()).collect()
}

fn envs(c: &CommandSpec) -> Vec<(&str, &str)> {
    c.envs.iter().map(|(k, v)| (k.as_str(), v.as_str())).collect()
}

#[test]
fn bundled_engine_runs_uvicorn_with_modules_dir() {
    let b = Bundle {
        core_python: Some("/res/bundle/core-bundle/py/bin/python3".to_string()),
        modules_dir: Some("/res/bundle/modules".to_string()),
    };
    let c = core_command(&b, "/repo");
    assert_eq!(c.program, "/res/bundle/core-bundle/py/bin/python3");
    assert_eq!(
        args(&c),
        vec!["-m", "uvicorn", "brainmux_core.api.app:app", "--host", "127.0.0.1", "--port", "8787"]
    );
    assert_eq!(c.current_dir, None);
    assert_eq!(envs(&c), vec![("BRAINMUX_MODULES_DIR", "/res/bundle/modules")]);
    assert!(c.own_group);
    assert!(!c.silent);
}

#[test]
fn bundled_engine_without_modules_sets_no_env() {
    let b = Bundle { core_python: Some("/py".to_string()), modules_dir: None };
    let c = core_command(&b, "/repo");
    assert_eq!(c.program, "/py");
    assert!(c.envs.is_empty());
}

#[test]
fn engine_without_bundle_runs_from_checkout() {
    let b = Bundle { core_python: None, modules_dir: Some("/ignored".to_string()) };
    let c = core_command(&b, "/home/ada/src");
    assert_eq!(c.program, "uv");
    assert_eq!(
        args(&c),
        vec![
            "run", "--project", "apps/core", "--env-file", ".env", "--", "uvicorn",
            "brainmux_core.api.app:app", "--host", "127.0.0.1", "--port", "8787", "--app-dir",
            "apps/core/src",
        ]
    );
    assert_eq!(c.current_dir.as_deref(), Some("/home/ada/src"));
    assert!(c.envs.is_empty());
    assert!(c.own_group);
}

#[test]
fn desktop_console_has_gate_off() {
    let b = Bundle { core_python: None, modules_dir: None };
    let c = console_command(&b, "/repo");
    assert_eq!(c.program, "npm");
    assert_eq!(args(&c), vec!["--prefix", "apps/app", "run", "dev", "--", "-p", "3100"]);
    assert_eq!(c.current_dir.as_deref(), Some("/repo"));
    assert_eq!(
        envs(&c),
        vec![
            ("NEXT_PUBLIC_CORE_URL", "http://127.0.0.1:8787"),
            ("NEXT_PUBLIC_SUPABASE_URL", ""),
            ("NEXT_PUBLIC_SUPABASE_ANON_KEY", ""),
        ]
    );
    assert!(c.own_group);
}

#[test]
fn notification_goes_through_notify_send() {
    let c = notify("title", "body text");
    assert_eq!(c.program, "notify-send");
    assert_eq!(args(&c), vec!["-a", "brainmux", "-i", "brainmux", "title", "body text"]);
    assert!(c.silent);
    assert!(!c.own_group);
    assert_eq!(c.current_dir, None);
}

#[test]
fn console_is_opened_with_xdg_open() {
    let c = open_console_command();
    assert_eq!(c.program, "xdg-open");
    assert_eq!(args(&c), vec!["http://127.0.0.1:3100/console/moduller"]);
    assert!(c.silent);
}

#[test]
fn ollama_daemon_command() {
    let c = ollama_serve_command();
    assert_eq!(c.program, "ollama");
    assert_eq!(args(&c), vec!["serve"]);
    assert!(c.silent);
    assert!(!c.own_group);
}

#[test]
fn bundle_candidates_lie_under_resources() {
    let (py, md) = bundle_candidates("/opt/brainmux/resources");
    assert_eq!(py, "/opt/brainmux/resources/bundle/core-bundle/py/bin/python3");
    assert_eq!(md, "/opt/brainmux/resources/bundle/modules");
}
