use lexi::client::{ConnectStep, PipeClient, SendCall, SendExchange, SendReply, SendStep, PIPE_TIMEOUT_MS};
use lexi::protocol::PIPE_BUFFER_SIZE;

fn connected() -> PipeClient {
    let mut c = PipeClient::new();
    assert_eq!(c.connect(), ConnectStep::Open);
    assert_eq!(c.on_open(Some(42)), Ok(()));
    assert_eq!(c.pipe_handle(), Some(42));
    c
}

fn expect_finish(step: SendStep, expected: Result<u32, &str>) {
    match step {
        SendStep::Finish(r) => assert_eq!(r, expected.map_err(|e| e.to_string())),
        SendStep::Call(_) => panic!("the exchange should be over"),
    }
}

fn expect_wait(step: SendStep) {
    match step {
        SendStep::Call(SendCall::Wait { timeout_ms }) => assert_eq!(timeout_ms, PIPE_TIMEOUT_MS),
        _ => panic!("expected a wait"),
    }
}

fn expect_close(step: SendStep) {
    assert!(matches!(step, SendStep::Call(SendCall::CloseEvent)));
}

/// Runs an exchange up to the read being started, with a write that completes.
fn up_to_read(message: &str) -> SendExchange {
    let c = connected();
    let (mut x, step) = c.send(message);
    assert!(matches!(step, SendStep::Call(SendCall::CreateEvent)));
    match x.resume(SendReply::Created(true)) {
        SendStep::Call(SendCall::Write(bytes)) => assert_eq!(bytes, message.as_bytes().to_vec()),
        _ => panic!("expected the write"),
    }
    expect_wait(x.resume(SendReply::Started { ok: true, count: 0 }));
    expect_close(x.resume(SendReply::Signalled(true)));
    assert!(matches!(x.resume(SendReply::Closed), SendStep::Call(SendCall::CreateEvent)));
    match x.resume(SendReply::Created(true)) {
        SendStep::Call(SendCall::Read { capacity }) => assert_eq!(capacity, PIPE_BUFFER_SIZE),
        _ => panic!("expected the read"),
    }
    x
}

#[test]
fn connect_opens_once() {
    let mut c = connected();
    assert_eq!(c.connect(), ConnectStep::Connected);
    assert_eq!(c.disconnect(), Some(42));
    assert_eq!(c.pipe_handle(), None);
    assert_eq!(c.disconnect(), None);
}

#[test]
fn failed_open_reports_error() {
    let mut c = PipeClient::new();
    assert_eq!(c.on_open(None), Err("Failed to open pipe".to_string()));
    assert_eq!(c.connect(), ConnectStep::Open);
}

#[test]
fn send_needs_a_connection() {
    let c = PipeClient::new();
    let (_, step) = c.send("{}");
    expect_finish(step, Err("Pipe not connected"));
}

#[test]
fn completed_read_gives_its_count() {
    let mut x = up_to_read("{\"type\":\"keydown\",\"keycode\":65,\"modifiers\":0}");
    expect_wait(x.resume(SendReply::Started { ok: true, count: 0 }));
    assert!(matches!(x.resume(SendReply::Signalled(true)), SendStep::Call(SendCall::QueryRead)));
    expect_close(x.resume(SendReply::Transferred(Some(17))));
    expect_finish(x.resume(SendReply::Closed), Ok(17));
}

#[test]
fn unfinished_read_keeps_the_first_count() {
    let mut x = up_to_read("é");
    expect_wait(x.resume(SendReply::Started { ok: true, count: 5 }));
    expect_close(x.resume(SendReply::Signalled(false)));
    expect_finish(x.resume(SendReply::Closed), Ok(5));

    let mut y = up_to_read("a");
    expect_wait(y.resume(SendReply::Started { ok: true, count: 3 }));
    assert!(matches!(y.resume(SendReply::Signalled(true)), SendStep::Call(SendCall::QueryRead)));
    expect_close(y.resume(SendReply::Transferred(None)));
    expect_finish(y.resume(SendReply::Closed), Ok(3));
}

#[test]
fn failures_end_the_exchange() {
    let c = connected();
    let (mut x, _) = c.send("a");
    expect_finish(x.resume(SendReply::Created(false)), Err("Failed to create write event"));

    let (mut x, _) = c.send("a");
    let _ = x.resume(SendReply::Created(true));
    expect_finish(x.resume(SendReply::Started { ok: false, count: 0 }), Err("Pipe write failed"));

    let (mut x, _) = c.send("a");
    let _ = x.resume(SendReply::Created(true));
    expect_wait(x.resume(SendReply::Started { ok: true, count: 1 }));
    expect_close(x.resume(SendReply::Signalled(false)));
    expect_finish(x.resume(SendReply::Closed), Err("Pipe write timed out"));

    let mut x = up_to_read("a");
    expect_finish(x.resume(SendReply::Started { ok: false, count: 0 }), Err("Pipe read failed"));

    let (mut x, _) = c.send("a");
    let _ = x.resume(SendReply::Created(true));
    let _ = x.resume(SendReply::Started { ok: true, count: 1 });
    let _ = x.resume(SendReply::Signalled(true));
    let _ = x.resume(SendReply::Closed);
    expect_finish(x.resume(SendReply::Created(false)), Err("Failed to create read event"));
}
