use strip_chart::session::{Action, RunState, Session};
use strip_chart::store::SampleStore;

#[test]
fn store_starts_empty() {
    let s: SampleStore<f64> = SampleStore::new(3);
    assert_eq!(s.channel_count(), 3);
    assert!(s.channels.iter().all(|c| c.is_empty()));
}

#[test]
fn store_appends_in_lock_step() {
    let mut s: SampleStore<f64> = SampleStore::new(2);
    s.append(vec![vec![1.0, 2.0], vec![3.0, 4.0]]);
    s.append(vec![vec![5.0], vec![]]);
    assert_eq!(s.channels, vec![vec![1.0, 2.0, 5.0], vec![3.0, 4.0]]);
}

#[test]
fn stop_while_idle_is_noop() {
    let mut session: Session<f64> = Session::new(2);
    let action = session.on_stop();
    assert_eq!(action, Action::Nothing);
    let r: Result<(), String> = session.on_outcome(action, Ok(()));
    assert_eq!(r, Ok(()));
    assert_eq!(session.state, RunState::Idle);
}

#[test]
fn toggle_starts_and_stops() {
    let mut session: Session<f64> = Session::new(2);
    let a = session.on_toggle();
    assert_eq!(a, Action::StartSource);
    let _ = session.on_outcome::<String>(a, Ok(()));
    assert!(session.is_running());
    let a = session.on_toggle();
    assert_eq!(a, Action::StopSource);
    assert_eq!(session.on_stop(), Action::StopSource);
    let _ = session.on_outcome::<String>(a, Ok(()));
    assert_eq!(session.state, RunState::Idle);
}

#[test]
fn failed_start_stays_idle() {
    let mut session: Session<f64> = Session::new(1);
    let a = session.on_toggle();
    let r = session.on_outcome(a, Err("device busy".to_string()));
    assert_eq!(r, Err("device busy".to_string()));
    assert_eq!(session.state, RunState::Idle);
}

#[test]
fn failed_stop_stays_running() {
    let mut session: Session<f64> = Session::new(1);
    let _ = session.on_outcome::<String>(Action::StartSource, Ok(()));
    let r = session.on_outcome(Action::StopSource, Err("fault".to_string()));
    assert!(r.is_err());
    assert_eq!(session.state, RunState::Running);
}

#[test]
fn reads_append_while_running() {
    let mut session: Session<f64> = Session::new(2);
    let _ = session.on_outcome::<String>(Action::StartSource, Ok(()));
    let r = session.on_read::<String>(Ok(vec![vec![0.5], vec![1.5, 2.5]]));
    assert_eq!(r, Ok(()));
    assert_eq!(session.store.channels, vec![vec![0.5], vec![1.5, 2.5]]);
}

#[test]
fn failed_read_stops_and_keeps_history() {
    let mut session: Session<f64> = Session::new(1);
    let _ = session.on_outcome::<String>(Action::StartSource, Ok(()));
    let _ = session.on_read::<String>(Ok(vec![vec![1.0, 2.0]]));
    let r = session.on_read(Err("read failed".to_string()));
    assert_eq!(r, Err("read failed".to_string()));
    assert_eq!(session.state, RunState::Idle);
    assert_eq!(session.store.channels, vec![vec![1.0, 2.0]]);
}

#[test]
fn reads_while_idle_change_nothing() {
    let mut session: Session<f64> = Session::new(1);
    let r = session.on_read::<String>(Ok(vec![vec![1.0]]));
    assert_eq!(r, Ok(()));
    assert!(session.store.channels[0].is_empty());
}

#[test]
fn history_survives_stop_and_start() {
    let mut session: Session<f64> = Session::new(1);
    let _ = session.on_outcome::<String>(Action::StartSource, Ok(()));
    let _ = session.on_read::<String>(Ok(vec![vec![1.0]]));
    let _ = session.on_outcome::<String>(Action::StopSource, Ok(()));
    let _ = session.on_outcome::<String>(Action::StartSource, Ok(()));
    let _ = session.on_read::<String>(Ok(vec![vec![2.0]]));
    assert_eq!(session.store.channels, vec![vec![1.0, 2.0]]);
}
