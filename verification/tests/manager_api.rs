//! Table-level behaviour that needs no live pseudo-terminal: the empty
//! table, unknown identifiers, the error taxonomy, the spawn policy and
//! the in-memory sink.

use ptymux::args::{build_args, resolve_program, DEFAULT_PROGRAM};
use ptymux::errors::SessionError;
use ptymux::manager::SessionManager;
use ptymux::pump::{handle_chunk, pump_buffer, BufferSink, OutputSink, CHUNK_SIZE};

#[test]
fn new_table_is_empty() {
    let mgr = SessionManager::new();
    let infos = mgr.list().unwrap();
    assert_eq!(infos.len(), 0);
    assert_eq!(mgr.get_pids().len(), 0);
    assert_eq!(mgr.running_count(), 0);
}

#[test]
fn unknown_id_is_not_found() {
    let mut mgr = SessionManager::new();
    assert_eq!(mgr.write("no-such-session", b"hi"), Err(SessionError::NotFound));
    assert_eq!(mgr.resize("no-such-session", 40, 120), Err(SessionError::NotFound));
    assert_eq!(mgr.kill("no-such-session"), Err(SessionError::NotFound));
    assert_eq!(mgr.remove("no-such-session"), Err(SessionError::NotFound));
    assert!(matches!(mgr.take_reader("no-such-session"), Err(SessionError::NotFound)));
    // The table is intact after every failed lookup.
    assert_eq!(mgr.list().unwrap().len(), 0);
}

#[test]
fn mark_exited_on_unknown_id_is_a_no_op() {
    let mut mgr = SessionManager::new();
    mgr.mark_exited("no-such-session");
    assert_eq!(mgr.list().unwrap().len(), 0);
}

#[test]
fn kill_all_on_empty_table_is_a_no_op() {
    let mut mgr = SessionManager::new();
    mgr.kill_all();
    assert_eq!(mgr.list().unwrap().len(), 0);
}

#[test]
fn error_messages() {
    assert_eq!(SessionError::NotFound.message(), "session not found");
    assert_eq!(SessionError::AlreadyTaken.message(), "reader already taken for session");
    assert_eq!(SessionError::LockError.message(), "session table lock poisoned");
    assert_eq!(SessionError::SpawnError("boom".to_string()).message(), "boom");
    assert_eq!(SessionError::IOError("pipe".to_string()).message(), "pipe");
}

#[test]
fn program_resolution() {
    assert_eq!(resolve_program(&None), DEFAULT_PROGRAM);
    assert_eq!(resolve_program(&Some("bash".to_string())), "bash");
}

#[test]
fn argument_policy() {
    assert_eq!(build_args(&None, &None), Vec::<String>::new());
    assert_eq!(
        build_args(&Some("m1".to_string()), &None),
        vec!["--model".to_string(), "m1".to_string()]
    );
    assert_eq!(build_args(&None, &Some("hello".to_string())), vec!["hello".to_string()]);
    assert_eq!(
        build_args(&Some("m1".to_string()), &Some("hello".to_string())),
        vec!["--model".to_string(), "m1".to_string(), "hello".to_string()]
    );
}

#[test]
fn buffer_sink_appends_in_order() {
    let mut sink = BufferSink::new();
    assert!(sink.data.is_empty());
    sink.on_chunk("some-session", b"abc");
    sink.on_chunk("some-session", b"def");
    assert_eq!(sink.data, b"abcdef");
}

#[test]
fn pump_buffer_is_one_chunk_long() {
    assert_eq!(pump_buffer().len(), CHUNK_SIZE);
}

#[test]
fn handle_chunk_forwards_exactly_the_read_prefix() {
    let mut sink = BufferSink::new();
    let mut buf = pump_buffer();
    buf[..5].copy_from_slice(b"abcde");

    let done = handle_chunk("some-session", 3, &buf, &mut sink);
    assert!(!done);
    assert_eq!(sink.data, b"abc");

    let done = handle_chunk("some-session", 5, &buf, &mut sink);
    assert!(!done);
    assert_eq!(sink.data, b"abcabcde");
}

#[test]
fn handle_chunk_zero_read_ends_stream_and_forwards_nothing() {
    let mut sink = BufferSink::new();
    sink.on_chunk("some-session", b"xy");
    let buf = pump_buffer();

    let done = handle_chunk("some-session", 0, &buf, &mut sink);
    assert!(done);
    assert_eq!(sink.data, b"xy");
}
