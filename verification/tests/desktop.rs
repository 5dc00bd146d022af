use brainmux::desktop::{desktop_launch, DesktopAction, DesktopEvent};

/// Runs the window's start-up with the given port answers (in turn) and
/// start-up result. Gives the readable actions.
fn run(ports: Vec<bool>, started: bool) -> Vec<String> {
    let (mut d, mut a) = desktop_launch();
    let mut ports = ports.into_iter();
    let mut out = Vec::new();
    for _ in 0..20 {
        let ev = match &a {
            DesktopAction::ProbePort(addr) => {
                out.push(format!("probe {addr}"));
                DesktopEvent::Probed(ports.next().unwrap())
            }
            DesktopAction::Run(c) => {
                out.push(format!("run {}", c.args.join(" ")));
                DesktopEvent::Completed
            }
            DesktopAction::Start => {
                out.push("start".to_string());
                DesktopEvent::Started(started)
            }
            DesktopAction::FocusExisting(url) => {
                out.push(format!("focus {url}"));
                DesktopEvent::Completed
            }
            DesktopAction::Navigate(url) => {
                out.push(format!("navigate {url}"));
                DesktopEvent::Completed
            }
            DesktopAction::Done => return out,
        };
        a = d.step(ev);
    }
    panic!("window start-up did not end");
}

#[test]
fn running_engine_is_focused_and_nothing_starts() {
    assert_eq!(
        run(vec![true], false),
        vec!["probe 127.0.0.1:8787", "focus http://127.0.0.1:3100/console/moduller"]
    );
}

#[test]
fn running_engine_without_console_starts_no_duplicate() {
    // Only the engine is probed: whether the console answers does not matter.
    let acts = run(vec![true, false], false);
    assert!(!acts.iter().any(|a| a == "start" || a.starts_with("run")));
}

#[test]
fn first_launch_starts_and_shows_console_when_ready() {
    assert_eq!(
        run(vec![false], true),
        vec![
            "probe 127.0.0.1:8787",
            "run -a brainmux -i brainmux brainmux başlatılıyor Yerel motor hazırlanıyor…",
            "start",
            "run -a brainmux -i brainmux brainmux hazır Konsol açılıyor…",
            "navigate http://127.0.0.1:3100/console/moduller",
        ]
    );
}

#[test]
fn first_launch_not_ready_keeps_splash() {
    assert_eq!(
        run(vec![false], false),
        vec![
            "probe 127.0.0.1:8787",
            "run -a brainmux -i brainmux brainmux başlatılıyor Yerel motor hazırlanıyor…",
            "start",
        ]
    );
}
