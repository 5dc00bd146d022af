use brainmux::bootstrap::{bootstrap, BootAction, BootEvent};
use brainmux::port_wait::{PortWait, WaitAction, WaitEvent};

struct World {
    core_open: bool,
    ollama_up: bool,
    model_present: bool,
    core: Result<u32, &'static str>,
    core_up: bool,
    console: Result<u32, &'static str>,
    console_up: bool,
}

/// Runs the bootstrapper against `w`; gives the readable actions and the exit code.
fn run(w: &World) -> (Vec<String>, i32) {
    run_with(w, Some("/home/ada"), None, Some("/repo"))
}

/// As `run`, with the given `HOME`, `BRAINMUX_HOME` and `BRAINMUX_REPO`.
fn run_with(w: &World, home: Option<&str>, data: Option<&str>, repo: Option<&str>) -> (Vec<String>, i32) {
    let own = |v: Option<&str>| v.map(|s| s.to_string());
    let (mut b, mut a) = bootstrap(own(home), own(data), own(repo));
    let mut out = Vec::new();
    let mut spawned = 0;
    let mut waited = 0;
    for _ in 0..60 {
        let ev = match &a {
            BootAction::Log(s) => {
                out.push(format!("log {s}"));
                BootEvent::Completed
            }
            BootAction::Run(c) => {
                out.push(format!("run {}", c.program));
                BootEvent::Completed
            }
            BootAction::ProbePort(addr) => {
                out.push(format!("probe {addr}"));
                BootEvent::Probed(w.core_open)
            }
            BootAction::ProvisionDirs(d) => {
                out.push(format!("dirs {}", d.len()));
                BootEvent::Completed
            }
            BootAction::ProbeOllama => BootEvent::Probed(w.ollama_up),
            BootAction::ProbeModel => BootEvent::Probed(w.model_present),
            BootAction::AutoProvision => {
                out.push("provision".to_string());
                BootEvent::Completed
            }
            BootAction::Spawn(c) => {
                out.push(format!("spawn {}", c.program));
                spawned += 1;
                let r = if spawned == 1 { w.core } else { w.console };
                match r {
                    Ok(id) => BootEvent::Spawned(id),
                    Err(e) => BootEvent::SpawnFailed(e.to_string()),
                }
            }
            BootAction::WaitPort(addr) => {
                out.push(format!("wait {addr}"));
                waited += 1;
                BootEvent::PortWaited(if waited == 1 { w.core_up } else { w.console_up })
            }
            BootAction::GuardInterrupt(p) => {
                out.push(format!("guard {p}"));
                BootEvent::Completed
            }
            BootAction::WaitExit(p) => {
                out.push(format!("wait-exit {p}"));
                BootEvent::Completed
            }
            BootAction::StopGroup(p) => {
                out.push(format!("stop {p}"));
                BootEvent::Completed
            }
            BootAction::Exit(c) => return (out, *c),
        };
        a = b.step(ev);
    }
    panic!("bootstrapper did not end");
}

fn world() -> World {
    World {
        core_open: false,
        ollama_up: true,
        model_present: true,
        core: Ok(100),
        core_up: true,
        console: Ok(200),
        console_up: true,
    }
}

#[test]
fn running_engine_only_opens_console() {
    let (acts, code) = run(&World { core_open: true, ..world() });
    assert_eq!(
        acts,
        vec![
            "log brainmux Companion (Rust bootstrapper) başlıyor…",
            "probe 127.0.0.1:8787",
            "log çekirdek zaten çalışıyor → konsol açılıyor.",
            "run notify-send",
            "run xdg-open",
        ]
    );
    assert_eq!(code, 0);
}

#[test]
fn full_run_stops_console_then_engine() {
    let (acts, code) = run(&world());
    assert_eq!(
        acts,
        vec![
            "log brainmux Companion (Rust bootstrapper) başlıyor…",
            "probe 127.0.0.1:8787",
            "run notify-send",
            "log 1/4 dizinler hazırlanıyor…",
            "dirs 6",
            "log   ~/.brainmux hazır: /home/ada/.brainmux",
            "log 2/4 durum denetimi…",
            "log   ollama: çalışıyor",
            "log   model bge-m3: var",
            "provision",
            "log 4/4 çekirdek başlatılıyor (127.0.0.1:8787)…",
            "spawn uv",
            "guard 100",
            "wait 127.0.0.1:8787",
            "log   çekirdek yayında: 127.0.0.1:8787 ✓",
            "spawn npm",
            "wait 127.0.0.1:3100",
            "log hazır → http://127.0.0.1:3100/console/moduller",
            "run notify-send",
            "run xdg-open",
            "log çalışıyor. Konsoldan 'Lokal Modu Durdur' ya da Ctrl+C ile durdur.",
            "wait-exit 100",
            "log çekirdek durdu — kapatılıyor…",
            "stop 200",
            "stop 100",
        ]
    );
    assert_eq!(code, 0);
}

#[test]
fn engine_spawn_failure_exits_with_one() {
    let (acts, code) = run(&World { core: Err("No such file or directory (os error 2)"), ..world() });
    assert_eq!(code, 1);
    assert_eq!(
        acts.last().unwrap(),
        "log HATA: çekirdek başlatılamadı (No such file or directory (os error 2)) — uv kurulu mu?"
    );
    assert!(!acts.iter().any(|a| a == "spawn npm"));
    assert!(!acts.iter().any(|a| a.starts_with("stop")));
}

#[test]
fn console_spawn_failure_stops_only_engine() {
    let (acts, code) = run(&World { console: Err("npm: not found"), ..world() });
    assert_eq!(code, 0);
    assert!(acts.contains(&"log UYARI: konsol başlatılamadı (npm: not found) — npm/Node var mı?".to_string()));
    assert!(!acts.contains(&"wait 127.0.0.1:3100".to_string()));
    let stops: Vec<&String> = acts.iter().filter(|a| a.starts_with("stop")).collect();
    assert_eq!(stops, vec!["stop 100"]);
}

#[test]
fn slow_services_are_warned_about() {
    let (acts, _) = run(&World { core_up: false, console_up: false, ollama_up: false, model_present: false, ..world() });
    assert!(acts.contains(&"log   UYARI: çekirdek açılmadı (127.0.0.1:8787)".to_string()));
    assert!(acts.contains(&"log   UYARI: konsol açılmadı (127.0.0.1:3100)".to_string()));
    assert!(acts.contains(&"log   ollama: kapalı → kurulacak".to_string()));
    assert!(acts.contains(&"log   model bge-m3: yok → inecek".to_string()));
    let up = acts.iter().position(|a| a == "log   çekirdek yayında: 127.0.0.1:8787 ✓").unwrap();
    let slow = acts.iter().position(|a| a == "log   UYARI: çekirdek açılmadı (127.0.0.1:8787)").unwrap();
    assert!(slow < up);
}

#[test]
fn engine_is_guarded_before_any_wait() {
    let (acts, _) = run(&World { core_up: false, console_up: false, ..world() });
    let guard = acts.iter().position(|a| a == "guard 100").unwrap();
    let spawn = acts.iter().position(|a| a == "spawn uv").unwrap();
    let first_wait = acts.iter().position(|a| a.starts_with("wait ")).unwrap();
    assert_eq!(guard, spawn + 1);
    assert!(guard < first_wait);
}

#[test]
fn missing_home_is_warned_where_it_is_used() {
    let (acts, _) = run_with(&world(), None, None, None);
    let warn = "log UYARI: HOME tanımlı değil → /tmp kullanılıyor";
    let warns: Vec<usize> = acts.iter().enumerate().filter(|(_, a)| a.as_str() == warn).map(|(i, _)| i).collect();
    assert_eq!(warns.len(), 2);
    assert_eq!(acts[warns[0] - 1], "log 1/4 dizinler hazırlanıyor…");
    assert_eq!(acts[warns[0] + 2], "log   ~/.brainmux hazır: /tmp/.brainmux");
    assert_eq!(acts[warns[1] - 1], "provision");
    assert_eq!(acts[warns[1] + 1], "log 4/4 çekirdek başlatılıyor (127.0.0.1:8787)…");
}

#[test]
fn overridden_dirs_need_no_home() {
    let (acts, _) = run_with(&world(), None, Some("/srv/data"), Some("/srv/repo"));
    assert!(!acts.iter().any(|a| a.contains("HOME")));
    assert!(acts.contains(&"log   ~/.brainmux hazır: /srv/data".to_string()));
}

#[test]
fn running_engine_needs_no_home_warning() {
    let (acts, _) = run_with(&World { core_open: true, ..world() }, None, None, None);
    assert!(!acts.iter().any(|a| a.contains("HOME")));
}

#[test]
fn interrupt_after_engine_start_ends_start_up() {
    let (mut b, mut a) = bootstrap(Some("/home/ada".to_string()), None, Some("/repo".to_string()));
    let mut out = Vec::new();
    // Drive until the engine is guarded.
    for _ in 0..30 {
        let ev = match &a {
            BootAction::ProbePort(_) => BootEvent::Probed(false),
            BootAction::ProbeOllama | BootAction::ProbeModel => BootEvent::Probed(true),
            BootAction::Spawn(_) => BootEvent::Spawned(100),
            BootAction::GuardInterrupt(p) => {
                assert_eq!(*p, 100);
                break;
            }
            _ => BootEvent::Completed,
        };
        a = b.step(ev);
    }
    assert!(b.accepts_interrupt());
    a = b.step(BootEvent::Interrupted);
    for _ in 0..10 {
        match &a {
            BootAction::Exit(c) => {
                out.push(format!("exit {c}"));
                break;
            }
            BootAction::Log(s) => out.push(format!("log {s}")),
            BootAction::StopGroup(p) => out.push(format!("stop {p}")),
            other => panic!("unexpected action after interrupt: {other:?}"),
        }
        a = b.step(BootEvent::Completed);
    }
    assert_eq!(out, vec!["log çekirdek durdu — kapatılıyor…", "stop 100", "exit 0"]);
}

#[test]
fn interrupt_before_guard_is_not_accepted() {
    let (b, _) = bootstrap(Some("/home/ada".to_string()), None, None);
    assert!(!b.accepts_interrupt());
}

#[test]
fn interrupted_port_wait_ends_unanswered() {
    let (mut w, _) = PortWait::new();
    assert_eq!(w.step(WaitEvent::Probed(false)), WaitAction::Sleep(1000));
    assert_eq!(w.step(WaitEvent::Interrupted), WaitAction::Finish(false));
    assert_eq!(w.step(WaitEvent::Slept), WaitAction::Finish(false));
}
