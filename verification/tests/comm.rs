use rqc::comm::{decode_client_word, decode_server_word, encode_client_word, encode_server_word,
    ClientStatus, Comm, ServerStatus, TestStatus};
use rqc::supervisor::{server_poll, Stats};

#[test]
fn fresh_region_is_idle() {
    let comm = Comm::new(2048);
    assert_eq!(comm.server_status(), ServerStatus::Default);
    assert_eq!(comm.client_status(), ClientStatus::Default);
    assert_eq!(comm.read(), Vec::<u8>::new());
}

#[test]
fn write_then_read_round_trip() {
    let mut comm = Comm::new(2048);
    let blob = vec![9, 8, 7, 6, 5];
    comm.write(&blob);
    assert_eq!(comm.read(), blob);
    let blob2 = vec![1, 2];
    comm.write(&blob2);
    assert_eq!(comm.read(), blob2);
}

#[test]
fn status_words_round_trip() {
    let mut comm = Comm::new(2048);
    comm.server_ready();
    assert_eq!(comm.server_status(), ServerStatus::Ready);
    comm.server_reset();
    assert_eq!(comm.server_status(), ServerStatus::Default);
    comm.client_ready();
    assert_eq!(comm.client_status(), ClientStatus::Ready);
    comm.client_test_status(TestStatus::Passed);
    assert_eq!(comm.client_status(), ClientStatus::Test(TestStatus::Passed));
    comm.client_test_status(TestStatus::Skipped);
    assert_eq!(comm.client_status(), ClientStatus::Test(TestStatus::Skipped));
    comm.client_test_status(TestStatus::Failed);
    assert_eq!(comm.client_status(), ClientStatus::Test(TestStatus::Failed));
    comm.client_test_status(TestStatus::InsufficientBytes);
    assert_eq!(
        comm.client_status(),
        ClientStatus::Test(TestStatus::InsufficientBytes)
    );
    comm.client_reset();
    assert_eq!(comm.client_status(), ClientStatus::Default);
}

/// One whole protocol round, as the two sides interleave it, checking after
/// every step that the server is never armed while the client is idle.
#[test]
fn protocol_round_never_arms_an_idle_client() {
    let mut comm = Comm::new(2048);
    let mut stats = Stats::new();
    let blob = vec![42; 64];

    let ok = |c: &Comm| {
        !(c.server_status() == ServerStatus::Ready
            && c.client_status() == ClientStatus::Default)
    };
    assert!(ok(&comm));

    // The supervisor polls an idle client: nothing happens.
    assert!(!server_poll(&mut comm, &mut stats, &blob));
    assert_eq!(stats.test_cases, 0);
    assert!(ok(&comm));

    // The client requests work.
    comm.client_request();
    assert!(ok(&comm));

    // The supervisor serves it: payload stored, region armed.
    assert!(server_poll(&mut comm, &mut stats, &blob));
    assert_eq!(stats.test_cases, 1);
    assert_eq!(comm.server_status(), ServerStatus::Ready);
    assert!(ok(&comm));

    // A second poll with the region armed does nothing.
    assert!(!server_poll(&mut comm, &mut stats, &blob));
    assert_eq!(stats.test_cases, 1);
    assert!(ok(&comm));

    // The client reads its input and reports a verdict.
    assert_eq!(comm.read(), blob);
    comm.client_submit(TestStatus::Passed);
    assert!(ok(&comm));

    // The supervisor collects it and closes the round.
    assert!(!server_poll(&mut comm, &mut stats, &blob));
    assert_eq!(stats.passed, 1);
    assert_eq!(stats.test_cases, 1);
    assert_eq!(comm.server_status(), ServerStatus::Default);
    assert_eq!(comm.client_status(), ClientStatus::Default);
    assert!(ok(&comm));
}

#[test]
fn collected_verdicts_land_on_their_counters() {
    let mut comm = Comm::new(2048);
    let mut stats = Stats::new();
    let blob = vec![0; 8];
    let verdicts = [
        TestStatus::Passed,
        TestStatus::Passed,
        TestStatus::Skipped,
        TestStatus::Failed,
        TestStatus::InsufficientBytes,
    ];
    for v in verdicts {
        comm.client_request();
        assert!(server_poll(&mut comm, &mut stats, &blob));
        comm.client_submit(v);
        assert!(!server_poll(&mut comm, &mut stats, &blob));
    }
    assert_eq!(stats.passed, 2);
    assert_eq!(stats.skipped, 1);
    assert_eq!(stats.failed, 1);
    assert_eq!(stats.insufficient_bytes, 1);
    assert_eq!(stats.test_cases, 5);
    assert_eq!(
        stats.passed + stats.skipped + stats.failed + stats.insufficient_bytes,
        stats.test_cases
    );
}

#[test]
fn status_word_codes_round_trip() {
    let clients = [
        ClientStatus::Default,
        ClientStatus::Ready,
        ClientStatus::Test(TestStatus::Passed),
        ClientStatus::Test(TestStatus::Skipped),
        ClientStatus::Test(TestStatus::Failed),
        ClientStatus::Test(TestStatus::InsufficientBytes),
    ];
    for (code, s) in clients.iter().enumerate() {
        assert_eq!(encode_client_word(*s), code as u64);
        assert_eq!(decode_client_word(code as u64), *s);
    }
    assert_eq!(encode_server_word(ServerStatus::Default), 0);
    assert_eq!(encode_server_word(ServerStatus::Ready), 1);
    assert_eq!(decode_server_word(0), ServerStatus::Default);
    assert_eq!(decode_server_word(1), ServerStatus::Ready);
    // Words no side ever writes decode to the idle state.
    assert_eq!(decode_client_word(9), ClientStatus::Default);
    assert_eq!(decode_server_word(9), ServerStatus::Default);
}
