use crate::cmsg::{carried, carried_from, decode_rights, decode_spec};
use crate::error::{FdError, InvalidData};
use crate::platform::Platform;
use vstd::prelude::*;

verus! {

/// The outcome of a receive step: what the operation returns, and the
/// descriptors that the caller must close before returning it.
pub struct Received {
    pub result: Result<i32, FdError>,
    pub close: Vec<i32>,
}

/// What `recv_fd` returns once `recvmsg` has returned `rv` (with `errno`
/// set when `rv` is negative), having read at most `data_cap` bytes of
/// stream data and the control region `region`, with `truncated` the
/// `MSG_CTRUNC` flag.
pub open spec fn recv_result(
    p: Platform,
    rv: int,
    errno: i32,
    data_cap: int,
    region: Seq<u8>,
    truncated: bool,
) -> Result<i32, FdError> {
    if rv == 0 {
        Err(FdError::UnexpectedEof)
    } else if rv < 0 {
        Err(FdError::Os(errno))
    } else if rv > data_cap {
        Err(FdError::InvalidData(InvalidData::Return))
    } else {
        match decode_spec(p, region, truncated) {
            Ok(fd) => Ok(fd),
            Err(kind) => Err(FdError::InvalidData(kind)),
        }
    }
}

/// Judges the result of `recvmsg`. A descriptor that the control region
/// carries is returned only when the region is one well-formed rights
/// message; on every other outcome each carried descriptor is handed back
/// to be closed. When `rv` is negative the kernel delivered nothing.
///
/// Interrupted calls are not retried: `EINTR` is returned as an OS error.
pub fn after_recvmsg(
    p: &Platform,
    rv: isize,
    errno: i32,
    data_cap: usize,
    region: &[u8],
    truncated: bool,
) -> (r: Received)
    requires
        p.wf(),
        region@.len() <= isize::MAX,
    ensures
        r.result == recv_result(*p, rv as int, errno, data_cap as int, region@, truncated),
        r.result is Ok ==> r.close@ == Seq::<i32>::empty(),
        r.result is Ok ==> carried_from(*p, region@, 0) == seq![r.result->Ok_0],
        r.result is Err && rv >= 0 ==> r.close@ == carried_from(*p, region@, 0),
        rv < 0 ==> r.close@ == Seq::<i32>::empty(),
{
    if rv < 0 {
        return Received { result: Err(FdError::Os(errno)), close: Vec::new() };
    }
    let error = if rv == 0 {
        FdError::UnexpectedEof
    } else if rv as usize > data_cap {
        FdError::InvalidData(InvalidData::Return)
    } else {
        match decode_rights(p, region, truncated) {
            Ok(fd) => {
                proof {
                    crate::laws::lemma_single_frame_carries(*p, region@, fd);
                }
                return Received { result: Ok(fd), close: Vec::new() };
            },
            Err(kind) => FdError::InvalidData(kind),
        }
    };
    Received { result: Err(error), close: carried(p, region) }
}

/// Judges the result `rv` of `fcntl(fd, F_SETFD, FD_CLOEXEC)` on a
/// received descriptor. The descriptor is returned only once close-on-exec
/// is set; otherwise it is handed back to be closed and the OS error is
/// returned.
pub fn after_cloexec(fd: i32, rv: i32, errno: i32) -> (r: Received)
    ensures
        rv < 0 ==> r.result == Err::<i32, FdError>(FdError::Os(errno)) && r.close@ == seq![fd],
        rv >= 0 ==> r.result == Ok::<i32, FdError>(fd) && r.close@ == Seq::<i32>::empty(),
{
    if rv < 0 {
        let mut close: Vec<i32> = Vec::new();
        close.push(fd);
        Received { result: Err(FdError::Os(errno)), close }
    } else {
        Received { result: Ok(fd), close: Vec::new() }
    }
}

/// Judges the result of `sendmsg`: any non-negative count is success.
pub fn after_sendmsg(rv: isize, errno: i32) -> (r: Result<(), FdError>)
    ensures
        rv < 0 ==> r == Err::<(), FdError>(FdError::Os(errno)),
        rv >= 0 ==> r == Ok::<(), FdError>(()),
{
    if rv < 0 {
        Err(FdError::Os(errno))
    } else {
        Ok(())
    }
}

/// The stream data that accompanies a descriptor when the caller gives
/// none: a zeroed native `int`.
pub fn default_payload() -> (r: Vec<u8>)
    ensures
        r@ == seq![0u8, 0u8, 0u8, 0u8],
{
    let mut r: Vec<u8> = Vec::new();
    r.push(0u8);
    r.push(0u8);
    r.push(0u8);
    r.push(0u8);
    r
}

/// Whether `e` says that a non-blocking call would have blocked.
pub fn is_would_block(p: &Platform, e: &FdError) -> (r: bool)
    ensures
        r == (*e == FdError::Os(p.eagain) || *e == FdError::Os(p.ewouldblock)),
{
    match e {
        FdError::Os(code) => *code == p.eagain || *code == p.ewouldblock,
        _ => false,
    }
}

} // verus!
