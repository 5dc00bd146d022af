use brainmux::launcher::{start, Bundle, StartAction, StartEvent};
use brainmux::process::teardown;

/// Runs a start-up; spawns answer from `spawns` in turn (an id or an error),
/// port waits from `waits` in turn. Gives the readable actions and the result.
fn run(spawns: Vec<Result<u32, &str>>, waits: Vec<bool>) -> (Vec<String>, Vec<i32>, bool) {
    let bundle = Bundle { core_python: None, modules_dir: None };
    let (mut s, mut a) = start(&bundle, "/repo", "/data");
    let mut spawns = spawns.into_iter();
    let mut waits = waits.into_iter();
    let mut out = Vec::new();
    for _ in 0..20 {
        let ev = match &a {
            StartAction::ProvisionDirs(d) => {
                out.push(format!("dirs {}", d.len()));
                StartEvent::Completed
            }
            StartAction::Spawn(c) => {
                out.push(format!("spawn {}", c.program));
                match spawns.next().unwrap() {
                    Ok(id) => StartEvent::Spawned(id),
                    Err(e) => StartEvent::SpawnFailed(e.to_string()),
                }
            }
            StartAction::Log(s) => {
                out.push(format!("log {s}"));
                StartEvent::Completed
            }
            StartAction::Remember(p) => {
                out.push(format!("remember {p}"));
                StartEvent::Completed
            }
            StartAction::WaitPort(addr) => {
                out.push(format!("wait {addr}"));
                StartEvent::PortWaited(waits.next().unwrap())
            }
            StartAction::Finish(pids, ready) => return (out, pids.clone(), *ready),
        };
        a = s.step(ev);
    }
    panic!("start-up did not end");
}

#[test]
fn start_records_both_groups_and_readiness() {
    let (acts, pids, ready) = run(vec![Ok(100), Ok(200)], vec![true, true]);
    assert_eq!(
        acts,
        vec![
            "dirs 6",
            "spawn uv",
            "remember 100",
            "wait 127.0.0.1:8787",
            "spawn npm",
            "remember 200",
            "wait 127.0.0.1:3100",
        ]
    );
    assert_eq!(pids, vec![100, 200]);
    assert!(ready);
    assert_eq!(teardown(&pids), vec![-100, -200]);
}

#[test]
fn failed_engine_is_logged_and_console_still_starts() {
    let (acts, pids, ready) = run(vec![Err("No such file"), Ok(7)], vec![false, true]);
    assert_eq!(
        acts,
        vec![
            "dirs 6",
            "spawn uv",
            "log HATA: çekirdek başlatılamadı (No such file)",
            "wait 127.0.0.1:8787",
            "spawn npm",
            "remember 7",
            "wait 127.0.0.1:3100",
        ]
    );
    assert_eq!(pids, vec![7]);
    assert!(ready);
}

#[test]
fn failed_console_is_logged_and_not_ready() {
    let (acts, pids, ready) = run(vec![Ok(5), Err("npm missing")], vec![true, false]);
    assert_eq!(acts[5], "log UYARI: konsol başlatılamadı (npm missing)");
    assert_eq!(pids, vec![5]);
    assert!(!ready);
}

#[test]
fn start_provisions_the_data_dir_first() {
    let bundle = Bundle { core_python: Some("/py".to_string()), modules_dir: None };
    let (_, a) = start(&bundle, "/repo", "/home/ada/.brainmux");
    match a {
        StartAction::ProvisionDirs(d) => {
            assert_eq!(d[0], "/home/ada/.brainmux/");
            assert_eq!(d[5], "/home/ada/.brainmux/runtime");
        }
        other => panic!("unexpected first action {other:?}"),
    }
}

#[test]
fn each_leader_is_handed_over_before_any_wait() {
    // An exit during the long port waits must still find every started group.
    let (acts, pids, _) = run(vec![Ok(41), Ok(42)], vec![false, false]);
    let first_wait = acts.iter().position(|a| a.starts_with("wait 127.0.0.1:8787")).unwrap();
    assert!(acts.iter().position(|a| a == "remember 41").unwrap() < first_wait);
    let console_wait = acts.iter().position(|a| a.starts_with("wait 127.0.0.1:3100")).unwrap();
    assert!(acts.iter().position(|a| a == "remember 42").unwrap() < console_wait);
    let remembered: Vec<i32> = acts
        .iter()
        .filter_map(|a| a.strip_prefix("remember ").map(|p| p.parse().unwrap()))
        .collect();
    assert_eq!(remembered, pids);
}

#[test]
fn interrupted_start_has_handed_over_what_it_started() {
    let bundle = Bundle { core_python: None, modules_dir: None };
    let (mut s, _) = start(&bundle, "/repo", "/data");
    let _spawn = s.step(StartEvent::Completed);
    match s.step(StartEvent::Spawned(9)) {
        StartAction::Remember(p) => assert_eq!(p, 9),
        other => panic!("unexpected action {other:?}"),
    }
    assert_eq!(s.pids, vec![9]);
}
