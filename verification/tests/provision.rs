use brainmux::provision::{auto_provision, state_check, ProvisionAction, ProvisionEvent};

/// Runs provisioning; `daemon(n)` answers the n-th daemon probe (from 0),
/// `model` the model probe. Gives the actions in a readable form.
fn run(daemon: impl Fn(usize) -> bool, model: bool) -> Vec<String> {
    let (mut p, mut a) = auto_provision();
    let mut out = Vec::new();
    let mut daemon_probes = 0;
    for _ in 0..100 {
        let ev = match &a {
            ProvisionAction::Log(s) => {
                out.push(format!("log {s}"));
                ProvisionEvent::Completed
            }
            ProvisionAction::Run(c) => {
                out.push(format!("run {} {}", c.program, c.args.join(" ")));
                ProvisionEvent::Completed
            }
            ProvisionAction::ProbeOllama => {
                out.push("probe ollama".to_string());
                let up = daemon(daemon_probes);
                daemon_probes += 1;
                ProvisionEvent::Probed(up)
            }
            ProvisionAction::ProbeModel => {
                out.push("probe model".to_string());
                ProvisionEvent::Probed(model)
            }
            ProvisionAction::Sleep(ms) => {
                out.push(format!("sleep {ms}"));
                ProvisionEvent::Completed
            }
            ProvisionAction::PullModel(m) => {
                out.push(format!("pull {m}"));
                ProvisionEvent::Completed
            }
            ProvisionAction::Done => {
                out.push("done".to_string());
                return out;
            }
        };
        a = p.step(ev);
    }
    panic!("provisioning did not end");
}

#[test]
fn ready_runtime_needs_nothing() {
    assert_eq!(
        run(|_| true, true),
        vec![
            "log 3/4 eksikler kuruluyor (zero-state)…",
            "probe ollama",
            "probe model",
            "log   hazır ✓",
            "done",
        ]
    );
}

#[test]
fn missing_model_is_pulled_with_a_notice() {
    assert_eq!(
        run(|_| true, false),
        vec![
            "log 3/4 eksikler kuruluyor (zero-state)…",
            "probe ollama",
            "probe model",
            "log   bge-m3 indiriliyor (ilk sefer, ~1GB)…",
            "run notify-send -a brainmux -i brainmux brainmux — ilk kurulum Yapay zeka modeli iniyor (~1GB, birkaç dakika)…",
            "pull bge-m3",
            "log   hazır ✓",
            "done",
        ]
    );
}

#[test]
fn daemon_down_is_started_and_waited_for() {
    assert_eq!(
        run(|n| n >= 3, true),
        vec![
            "log 3/4 eksikler kuruluyor (zero-state)…",
            "probe ollama",
            "log   Ollama başlatılıyor…",
            "run ollama serve",
            "sleep 500",
            "probe ollama",
            "sleep 500",
            "probe ollama",
            "sleep 500",
            "probe ollama",
            "probe model",
            "log   hazır ✓",
            "done",
        ]
    );
}

#[test]
fn daemon_that_never_comes_up_is_warned_about() {
    let acts = run(|_| false, false);
    let count = |s: &str| acts.iter().filter(|a| a.as_str() == s).count();
    assert_eq!(count("run ollama serve"), 1);
    assert_eq!(count("probe ollama"), 21);
    assert_eq!(count("sleep 500"), 20);
    assert_eq!(count("log   UYARI: Ollama başlamadı (kurulu mu?)"), 1);
    assert_eq!(count("probe model"), 1);
    assert_eq!(count("pull bge-m3"), 1);
    assert_eq!(acts.last().map(|s| s.as_str()), Some("done"));
}

#[test]
fn daemon_up_at_last_retry_is_not_warned_about() {
    let acts = run(|n| n == 20, true);
    assert_eq!(acts.iter().filter(|a| a.as_str() == "probe ollama").count(), 21);
    assert!(!acts.iter().any(|a| a.contains("UYARI")));
}

#[test]
fn state_report_lines() {
    assert_eq!(
        state_check(true, false),
        vec!["2/4 durum denetimi…", "  ollama: çalışıyor", "  model bge-m3: yok → inecek"]
    );
    assert_eq!(
        state_check(false, true),
        vec!["2/4 durum denetimi…", "  ollama: kapalı → kurulacak", "  model bge-m3: var"]
    );
}
