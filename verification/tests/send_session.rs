//! Tests for the compound send operation's walk through its engine steps.

use async_tungstenite::conn::ConnState;
use async_tungstenite::conn::Signal;
use async_tungstenite::send::send_on_flush_first;
use async_tungstenite::send::send_on_flush_last;
use async_tungstenite::send::send_on_write;
use async_tungstenite::send::SendAction;
use async_tungstenite::send::SendJob;
use async_tungstenite::send::SendProgress;

#[test]
fn send_walks_write_then_flush_when_ready() {
    let mut st = ConnState::new();
    let mut job = SendJob::new("msg");
    assert_eq!(job.next_action(&st), SendAction::Write("msg"));
    assert_eq!(job.msg, None);
    assert_eq!(send_on_write::<u8>(&mut st, Ok(())), SendProgress::Continue);
    assert_eq!(job.next_action(&st), SendAction::FlushLast);
    assert_eq!(send_on_flush_last::<u8>(&mut st, Ok(())), SendProgress::Done);
    assert!(st.ready);
}

#[test]
fn send_flushes_first_when_blocked() {
    let mut st = ConnState::new();
    st.on_write::<u8>(Err(Signal::WouldBlock)).unwrap();
    let mut job = SendJob::new(1u32);
    assert_eq!(job.next_action(&st), SendAction::FlushFirst);
    assert_eq!(job.msg, Some(1));
    // The preparatory flush needs more I/O: the poll suspends, the message stays.
    assert_eq!(
        send_on_flush_first::<u8>(&mut st, Err(Signal::WouldBlock)),
        SendProgress::Suspend
    );
    assert_eq!(job.next_action(&st), SendAction::FlushFirst);
    // On the next poll the flush resolves and the walk reaches the write.
    assert_eq!(send_on_flush_first::<u8>(&mut st, Ok(())), SendProgress::Continue);
    assert_eq!(job.next_action(&st), SendAction::Write(1));
}

#[test]
fn send_with_backpressured_write_still_flushes() {
    let mut st = ConnState::new();
    let mut job = SendJob::new(2u32);
    assert_eq!(job.next_action(&st), SendAction::Write(2));
    // The engine queues the message but signals backpressure: not an error.
    assert_eq!(
        send_on_write::<u8>(&mut st, Err(Signal::WouldBlock)),
        SendProgress::Continue
    );
    assert!(!st.ready);
    assert_eq!(job.next_action(&st), SendAction::FlushLast);
    assert_eq!(send_on_flush_last::<u8>(&mut st, Ok(())), SendProgress::Done);
    assert!(st.ready);
}

#[test]
fn send_write_error_settles_the_send() {
    let mut st = ConnState::new();
    let mut job = SendJob::new(3u32);
    assert_eq!(job.next_action(&st), SendAction::Write(3));
    assert_eq!(
        send_on_write::<&str>(&mut st, Err(Signal::Failed("io down"))),
        SendProgress::Fail(Signal::Failed("io down"))
    );
}

#[test]
fn send_preparatory_flush_error_settles_the_send() {
    let mut st = ConnState::new();
    st.on_write::<&str>(Err(Signal::WouldBlock)).unwrap();
    let mut job = SendJob::new(4u32);
    assert_eq!(job.next_action(&st), SendAction::FlushFirst);
    assert_eq!(
        send_on_flush_first::<&str>(&mut st, Err(Signal::ConnectionClosed)),
        SendProgress::Fail(Signal::ConnectionClosed)
    );
}

#[test]
fn send_final_flush_into_closed_connection_succeeds() {
    let mut st = ConnState::new();
    let mut job = SendJob::new(5u32);
    assert_eq!(job.next_action(&st), SendAction::Write(5));
    assert_eq!(send_on_write::<u8>(&mut st, Ok(())), SendProgress::Continue);
    assert_eq!(
        send_on_flush_last::<u8>(&mut st, Err(Signal::ConnectionClosed)),
        SendProgress::Done
    );
}
