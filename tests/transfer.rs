use passfd::adapter::{step, Action, Completion, Event, Phase, Readiness};
use passfd::cmsg::encode_rights;
use passfd::error::{FdError, InvalidData};
use passfd::platform::Platform;
use passfd::transfer::{after_cloexec, after_recvmsg, after_sendmsg, default_payload, is_would_block};

fn linux() -> Platform {
    Platform { word: 8, sol_socket: 1, scm_rights: 1, eagain: 11, ewouldblock: 11 }
}

fn two_fds() -> Vec<u8> {
    let mut b = Vec::new();
    b.extend_from_slice(&24u64.to_le_bytes());
    b.extend_from_slice(&1i32.to_le_bytes());
    b.extend_from_slice(&1i32.to_le_bytes());
    b.extend_from_slice(&5i32.to_le_bytes());
    b.extend_from_slice(&6i32.to_le_bytes());
    b
}

#[test]
fn well_formed_receive_returns_descriptor() {
    let p = linux();
    let region = encode_rights(&p, 9);
    let r = after_recvmsg(&p, 4, 0, 4, &region, false);
    assert_eq!(r.result, Ok(9));
    assert!(r.close.is_empty());
}

#[test]
fn zero_bytes_is_eof() {
    let p = linux();
    let r = after_recvmsg(&p, 0, 0, 4, &[], false);
    assert_eq!(r.result, Err(FdError::UnexpectedEof));
    assert!(r.close.is_empty());
}

#[test]
fn negative_return_is_os_error() {
    let p = linux();
    let region = encode_rights(&p, 9);
    let r = after_recvmsg(&p, -1, libc::EAGAIN, 4, &region, false);
    assert_eq!(r.result, Err(FdError::Os(libc::EAGAIN)));
    assert!(r.close.is_empty());
}

#[test]
fn overlong_return_is_refused() {
    let p = linux();
    let region = encode_rights(&p, 9);
    let r = after_recvmsg(&p, 5, 0, 4, &region, false);
    assert_eq!(r.result, Err(FdError::InvalidData(InvalidData::Return)));
    assert_eq!(r.close, vec![9]);
}

#[test]
fn plain_bytes_are_invalid_data() {
    let p = linux();
    let r = after_recvmsg(&p, 4, 0, 4, &[], false);
    assert_eq!(r.result, Err(FdError::InvalidData(InvalidData::Header)));
    assert!(r.close.is_empty());
}

#[test]
fn malformed_receive_closes_every_descriptor() {
    let p = linux();
    let r = after_recvmsg(&p, 4, 0, 4, &two_fds(), false);
    assert_eq!(r.result, Err(FdError::InvalidData(InvalidData::Length)));
    assert_eq!(r.close, vec![5, 6]);
}

#[test]
fn truncated_receive_closes_what_arrived() {
    let p = linux();
    let region = encode_rights(&p, 12);
    let r = after_recvmsg(&p, 4, 0, 4, &region, true);
    assert_eq!(r.result, Err(FdError::InvalidData(InvalidData::Truncated)));
    assert_eq!(r.close, vec![12]);
}

#[test]
fn credentials_message_is_level_fault() {
    let p = linux();
    let mut region = Vec::new();
    region.extend_from_slice(&28u64.to_le_bytes());
    region.extend_from_slice(&1i32.to_le_bytes());
    region.extend_from_slice(&2i32.to_le_bytes());
    region.extend_from_slice(&[0u8; 12]);
    region.extend_from_slice(&[0u8; 4]);
    let r = after_recvmsg(&p, 4, 0, 4, &region, false);
    assert_eq!(r.result, Err(FdError::InvalidData(InvalidData::Level)));
    assert!(r.close.is_empty());
}

#[test]
fn cloexec_failure_closes_descriptor() {
    let r = after_cloexec(7, -1, libc::EBADF);
    assert_eq!(r.result, Err(FdError::Os(libc::EBADF)));
    assert_eq!(r.close, vec![7]);
}

#[test]
fn cloexec_success_returns_descriptor() {
    let r = after_cloexec(7, 0, 0);
    assert_eq!(r.result, Ok(7));
    assert!(r.close.is_empty());
}

#[test]
fn send_to_closed_peer_is_os_error() {
    assert_eq!(after_sendmsg(-1, libc::EPIPE), Err(FdError::Os(libc::EPIPE)));
    assert_eq!(after_sendmsg(4, 0), Ok(()));
    assert_eq!(after_sendmsg(0, 0), Ok(()));
}

#[test]
fn default_payload_is_zeroed_int() {
    assert_eq!(default_payload(), vec![0u8; 4]);
}

#[test]
fn would_block_is_recognised() {
    let p = Platform { word: 8, sol_socket: 0xffff, scm_rights: 1, eagain: 35, ewouldblock: 36 };
    assert!(is_would_block(&p, &FdError::Os(35)));
    assert!(is_would_block(&p, &FdError::Os(36)));
    assert!(!is_would_block(&p, &FdError::Os(32)));
    assert!(!is_would_block(&p, &FdError::UnexpectedEof));
}

#[test]
fn messages_name_the_fault() {
    assert_eq!(FdError::UnexpectedEof.message(), "0 bytes read");
    assert_eq!(FdError::InvalidData(InvalidData::Header).message(), "missing control msg");
    assert_eq!(FdError::InvalidData(InvalidData::Level).message(), "bad control msg (level)");
    assert_eq!(FdError::InvalidData(InvalidData::Length).message(), "bad control msg (len)");
    assert_eq!(FdError::InvalidData(InvalidData::Truncated).message(), "control msg truncated");
    assert_eq!(FdError::InvalidData(InvalidData::Return).message(), "unexpected return value");
}

#[test]
fn receive_waits_retries_and_settles() {
    let p = linux();
    let (ph, a) = step(&p, Phase::Start, Event::Readiness(Readiness::Pending));
    assert_eq!((ph, a), (Phase::Start, Action::Suspend));
    let (ph, a) = step(&p, ph, Event::Readiness(Readiness::Ready));
    assert_eq!((ph, a), (Phase::Ready, Action::Attempt));
    let (ph, a) = step(&p, ph, Event::Attempted(Completion::Failed(FdError::Os(11))));
    assert_eq!((ph, a), (Phase::Start, Action::AwaitReadiness));
    let (ph, a) = step(&p, ph, Event::Readiness(Readiness::Ready));
    assert_eq!((ph, a), (Phase::Ready, Action::Attempt));
    let (ph, a) = step(&p, ph, Event::Attempted(Completion::Received(5)));
    assert_eq!((ph, a), (Phase::Done, Action::Complete(Completion::Received(5))));
}

#[test]
fn send_settles_on_error() {
    let p = linux();
    let (ph, a) = step(&p, Phase::Ready, Event::Attempted(Completion::Failed(FdError::Os(32))));
    assert_eq!((ph, a), (Phase::Done, Action::Complete(Completion::Failed(FdError::Os(32)))));
    let (ph, a) = step(&p, Phase::Ready, Event::Attempted(Completion::Sent));
    assert_eq!((ph, a), (Phase::Done, Action::Complete(Completion::Sent)));
    let (ph, a) = step(&p, Phase::Start, Event::Readiness(Readiness::Failed(FdError::Os(9))));
    assert_eq!((ph, a), (Phase::Done, Action::Complete(Completion::Failed(FdError::Os(9)))));
}

#[test]
fn cancel_before_readiness_makes_no_attempt() {
    let p = linux();
    let (ph, a) = step(&p, Phase::Start, Event::Cancel);
    assert_eq!((ph, a), (Phase::Done, Action::Idle));
    let (ph, a) = step(&p, ph, Event::Readiness(Readiness::Ready));
    assert_eq!((ph, a), (Phase::Done, Action::Idle));
}

#[test]
fn late_descriptor_is_closed() {
    let p = linux();
    let (ph, a) = step(&p, Phase::Done, Event::Attempted(Completion::Received(8)));
    assert_eq!((ph, a), (Phase::Done, Action::Close(8)));
    let (ph, a) = step(&p, Phase::Start, Event::Attempted(Completion::Sent));
    assert_eq!((ph, a), (Phase::Start, Action::Idle));
}

#[test]
fn second_receive_stays_pending_without_data() {
    let p = linux();
    let (_, a) = step(&p, Phase::Ready, Event::Attempted(Completion::Received(3)));
    assert_eq!(a, Action::Complete(Completion::Received(3)));
    let (ph, a) = step(&p, Phase::Start, Event::Readiness(Readiness::Pending));
    assert_eq!((ph, a), (Phase::Start, Action::Suspend));
}
