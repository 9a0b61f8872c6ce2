//! End-to-end behaviour over live pseudo-terminals: spawning real
//! children, streaming their output, resizing, killing and removing.

use ptymux::errors::SessionError;
use ptymux::manager::SessionManager;
use ptymux::pump::{pump_buffer, pump_step, BufferSink};

/// Spawns a long-lived quiet child (`cat` waits on its terminal until
/// killed) and returns its session id.
fn spawn_cat(mgr: &mut SessionManager, task_id: i32) -> String {
    mgr.spawn(
        task_id,
        1,
        "/tmp".to_string(),
        None,
        Some("cat".to_string()),
        None,
        24,
        80,
    )
    .expect("spawning cat failed")
}

#[test]
fn list_tracks_spawned_minus_removed() {
    let mut mgr = SessionManager::new();
    let a = spawn_cat(&mut mgr, 1);
    let b = spawn_cat(&mut mgr, 2);
    assert_ne!(a, b);

    let infos = mgr.list().unwrap();
    let mut ids: Vec<String> = infos.iter().map(|i| i.session_id.clone()).collect();
    ids.sort();
    let mut expect = vec![a.clone(), b.clone()];
    expect.sort();
    assert_eq!(ids, expect);

    assert_eq!(mgr.kill(&a), Ok(()));
    assert_eq!(mgr.remove(&a), Ok(()));
    let infos = mgr.list().unwrap();
    assert_eq!(infos.len(), 1);
    assert_eq!(infos[0].session_id, b);
    // A removed session is gone for good.
    assert_eq!(mgr.remove(&a), Err(SessionError::NotFound));

    assert_eq!(mgr.kill(&b), Ok(()));
    assert_eq!(mgr.remove(&b), Ok(()));
    assert_eq!(mgr.list().unwrap().len(), 0);
}

#[test]
fn reader_is_handed_out_exactly_once() {
    let mut mgr = SessionManager::new();
    let id = spawn_cat(&mut mgr, 1);

    assert!(mgr.take_reader(&id).is_ok());
    assert!(matches!(mgr.take_reader(&id), Err(SessionError::AlreadyTaken)));
    assert!(matches!(mgr.take_reader(&id), Err(SessionError::AlreadyTaken)));

    assert_eq!(mgr.kill(&id), Ok(()));
    assert_eq!(mgr.remove(&id), Ok(()));
}

#[test]
fn pump_delivers_exact_bytes_then_exit() {
    let mut mgr = SessionManager::new();
    // `printf` writes its format string verbatim and exits.
    let payload = "exactly-these-bytes";
    let id = mgr
        .spawn(
            1,
            1,
            "/tmp".to_string(),
            Some(payload.to_string()),
            Some("printf".to_string()),
            None,
            24,
            80,
        )
        .expect("spawning printf failed");

    let mut reader = mgr.take_reader(&id).expect("reader");
    let mut sink = BufferSink::new();
    let mut buf = pump_buffer();
    while !pump_step(&mut reader, &id, &mut buf, &mut sink) {}
    mgr.mark_exited(&id);

    assert_eq!(sink.data, payload.as_bytes());
    let infos = mgr.list().unwrap();
    assert_eq!(infos.len(), 1);
    assert_eq!(infos[0].status, "exited");
    assert_eq!(mgr.remove(&id), Ok(()));
}

#[test]
fn resize_keeps_session_running() {
    let mut mgr = SessionManager::new();
    let id = mgr
        .spawn(1, 1, "/tmp".to_string(), None, Some("cat".to_string()), None, 24, 80)
        .expect("spawning cat failed");

    assert_eq!(mgr.resize(&id, 40, 120), Ok(()));
    let infos = mgr.list().unwrap();
    assert_eq!(infos.len(), 1);
    assert_eq!(infos[0].status, "running");
    assert_eq!(infos[0].working_dir, "/tmp");

    assert_eq!(mgr.kill(&id), Ok(()));
    let infos = mgr.list().unwrap();
    assert_eq!(infos[0].status, "exited");
    assert_eq!(mgr.remove(&id), Ok(()));
}

#[test]
fn get_pids_reports_both_until_removed() {
    let mut mgr = SessionManager::new();
    let a = spawn_cat(&mut mgr, 1);
    let b = spawn_cat(&mut mgr, 2);

    let infos = mgr.list().unwrap();
    let pid_a = infos.iter().find(|i| i.session_id == a).unwrap().pid.unwrap();
    let pid_b = infos.iter().find(|i| i.session_id == b).unwrap().pid.unwrap();
    assert_ne!(pid_a, pid_b);

    let pids = mgr.get_pids();
    assert_eq!(pids.len(), 2);
    assert!(pids.contains(&pid_a));
    assert!(pids.contains(&pid_b));

    // Killing one does not take its pid out of the table; removing does.
    assert_eq!(mgr.kill(&a), Ok(()));
    let pids = mgr.get_pids();
    assert_eq!(pids.len(), 2);
    assert!(pids.contains(&pid_b));

    assert_eq!(mgr.remove(&a), Ok(()));
    assert_eq!(mgr.get_pids(), vec![pid_b]);

    assert_eq!(mgr.kill(&b), Ok(()));
    assert_eq!(mgr.remove(&b), Ok(()));
    assert_eq!(mgr.get_pids().len(), 0);
}

#[test]
fn kill_all_marks_every_session_exited() {
    let mut mgr = SessionManager::new();
    let _a = spawn_cat(&mut mgr, 1);
    let _b = spawn_cat(&mut mgr, 2);
    assert_eq!(mgr.running_count(), 2);

    mgr.kill_all();

    let infos = mgr.list().unwrap();
    assert_eq!(infos.len(), 2);
    for info in &infos {
        assert_eq!(info.status, "exited");
    }
    assert_eq!(mgr.running_count(), 0);
}

#[test]
fn spawn_failure_leaves_table_unchanged() {
    let mut mgr = SessionManager::new();
    let r = mgr.spawn(
        1,
        1,
        "/tmp".to_string(),
        None,
        Some("no-such-program-anywhere-on-path".to_string()),
        None,
        24,
        80,
    );
    assert!(matches!(r, Err(SessionError::SpawnError(_))));
    assert_eq!(mgr.list().unwrap().len(), 0);
}

#[test]
fn write_reaches_live_session() {
    let mut mgr = SessionManager::new();
    let id = spawn_cat(&mut mgr, 1);

    assert_eq!(mgr.write(&id, b"ping\n"), Ok(()));

    // `cat` echoes what it reads back through the terminal; at least one
    // byte must come out before the stream is over.
    let mut reader = mgr.take_reader(&id).expect("reader");
    let mut sink = BufferSink::new();
    let mut buf = pump_buffer();
    let done = pump_step(&mut reader, &id, &mut buf, &mut sink);
    assert!(!done);
    assert!(!sink.data.is_empty());

    assert_eq!(mgr.kill(&id), Ok(()));
    assert_eq!(mgr.remove(&id), Ok(()));
}
