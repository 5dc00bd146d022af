use brainmux::port_wait::{PortWait, WaitAction, WaitEvent, PORT_WAIT_PAUSE_MS, PORT_WAIT_TRIES};

/// Runs a wait whose probes connect according to `connects(n)` for the n-th
/// probe (from 0); gives the result, the probes made and the sleeps made.
fn run(connects: impl Fn(u32) -> bool) -> (bool, u32, u32) {
    let (mut w, mut a) = PortWait::new();
    let (mut probes, mut sleeps) = (0u32, 0u32);
    loop {
        a = match a {
            WaitAction::Probe => {
                let ok = connects(probes);
                probes += 1;
                w.step(WaitEvent::Probed(ok))
            }
            WaitAction::Sleep(ms) => {
                assert_eq!(ms, PORT_WAIT_PAUSE_MS);
                sleeps += 1;
                w.step(WaitEvent::Slept)
            }
            WaitAction::Finish(r) => return (r, probes, sleeps),
        };
    }
}

#[test]
fn open_port_is_ready_at_once() {
    assert_eq!(run(|_| true), (true, 1, 0));
}

#[test]
fn port_opening_later_is_found() {
    assert_eq!(run(|n| n == 4), (true, 5, 4));
}

#[test]
fn closed_port_is_given_up_after_all_tries() {
    assert_eq!(run(|_| false), (false, PORT_WAIT_TRIES, PORT_WAIT_TRIES));
    assert_eq!(PORT_WAIT_TRIES, 120);
}

#[test]
fn port_opening_at_last_try_is_found() {
    assert_eq!(run(|n| n == 119), (true, 120, 119));
}

#[test]
fn port_opening_too_late_is_missed() {
    assert_eq!(run(|n| n >= 120), (false, 120, 120));
}

#[test]
fn finished_wait_stays_finished() {
    let (mut w, _) = PortWait::new();
    assert_eq!(w.step(WaitEvent::Probed(true)), WaitAction::Finish(true));
    assert_eq!(w.step(WaitEvent::Slept), WaitAction::Finish(true));
    assert_eq!(w.step(WaitEvent::Probed(false)), WaitAction::Finish(true));
}
