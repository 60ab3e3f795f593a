use crate::cmsg::{
    carried_from, decode_spec, int_at, int_bytes, record_fds, record_fits, record_len, record_level,
    record_type, rights_frame, word_bytes,
};
use vstd::bytes::{
    lemma_auto_spec_u32_to_from_le_bytes, lemma_auto_spec_u64_to_from_le_bytes,
};
use crate::adapter::{next, Action, Completion, Event, Phase, Readiness};
use crate::error::{FdError, InvalidData};
use crate::platform::Platform;
use crate::transfer::recv_result;
use vstd::prelude::*;

verus! {

/// A control region that decodes to a descriptor carries that descriptor
/// and no other.
pub proof fn lemma_single_frame_carries(p: Platform, s: Seq<u8>, fd: i32)
    requires
        p.wf(),
        decode_spec(p, s, false) == Ok::<i32, crate::error::InvalidData>(fd),
    ensures
        carried_from(p, s, 0) == seq![fd],
{
    let h = p.header_spec() as int;
    assert(record_len(p, s, 0) == p.len_spec(4));
    assert(record_fits(p, s, 0));
    if p.word == 8 {
        assert(20nat % 8 == 4);
        assert(4nat % 8 == 4);
    } else {
        assert(16nat % 4 == 0);
        assert(4nat % 4 == 0);
    }
    assert(p.align_spec(p.len_spec(4)) == p.space_spec(4));
    assert(!record_fits(p, s, s.len() as int));
    assert(carried_from(p, s, s.len() as int) == Seq::<i32>::empty());
    assert(record_fds(p, s, 0) =~= seq![int_at(s, h)]);
    assert(carried_from(p, s, 0) =~= seq![fd]);
}

/// A native `int` read back from its bytes is the same `int`.
pub proof fn lemma_int_round_trip(v: i32)
    ensures
        int_bytes(v).len() == 4,
        int_at(int_bytes(v), 0) == v,
{
    lemma_auto_spec_u32_to_from_le_bytes();
    assert(int_bytes(v).subrange(0, 4) =~= int_bytes(v));
    assert((v as u32) as i32 == v) by (bit_vector);
}

/// The control region built for `fd` is accepted on receipt and yields
/// `fd`, and it carries that descriptor and no other.
pub proof fn lemma_rights_round_trip(p: Platform, fd: i32)
    requires
        p.wf(),
    ensures
        decode_spec(p, rights_frame(p, fd), false) == Ok::<i32, crate::error::InvalidData>(fd),
        carried_from(p, rights_frame(p, fd), 0) == seq![fd],
{
    lemma_auto_spec_u32_to_from_le_bytes();
    lemma_auto_spec_u64_to_from_le_bytes();
    lemma_int_round_trip(p.sol_socket);
    lemma_int_round_trip(p.scm_rights);
    lemma_int_round_trip(fd);
    let w = p.word as int;
    let len = word_bytes(p, p.len_spec(4));
    let a = int_bytes(p.sol_socket);
    let b = int_bytes(p.scm_rights);
    let c = int_bytes(fd);
    let s = rights_frame(p, fd);
    assert(len.len() == w);
    if p.word == 8 {
        assert(20nat % 8 == 4);
        assert(4nat % 8 == 4);
    } else {
        assert(4nat % 4 == 0);
    }
    assert(s.len() == p.space_spec(4));
    assert(s.subrange(0, w) =~= len);
    assert(record_len(p, s, 0) == p.len_spec(4));
    assert(s.subrange(w, w + 4) =~= a);
    assert(s.subrange(w, w + 4).subrange(0, 4) =~= s.subrange(w, w + 4));
    assert(int_at(s, w) == int_at(a, 0));
    assert(record_level(p, s, 0) == p.sol_socket);
    assert(s.subrange(w + 4, w + 8) =~= b);
    assert(b.subrange(0, 4) =~= b);
    assert(int_at(s, w + 4) == int_at(b, 0));
    assert(record_type(p, s, 0) == p.scm_rights);
    assert(s.subrange(w + 8, w + 12) =~= c);
    assert(c.subrange(0, 4) =~= c);
    assert(int_at(s, w + 8) == int_at(c, 0));
    assert(decode_spec(p, s, false) == Ok::<i32, crate::error::InvalidData>(fd));
    lemma_single_frame_carries(p, s, fd);
}

/// A cancelled transfer performs no syscall: cancelling settles it at once,
/// whatever its phase, and no later event leads to another attempt.
pub proof fn lemma_cancel_settles(p: Platform, phase: Phase, later: Event)
    ensures
        next(p, phase, Event::Cancel) == (Phase::Done, Action::Idle),
        next(p, Phase::Done, later).0 == Phase::Done,
        next(p, Phase::Done, later).1 != Action::Attempt,
{
}

/// A descriptor produced by an attempt is never lost: it is either the
/// transfer's result or closed.
pub proof fn lemma_received_surfaces(p: Platform, phase: Phase, fd: i32)
    ensures
        next(p, phase, Event::Attempted(Completion::Received(fd))).1 == Action::Complete(
            Completion::Received(fd),
        ) || next(p, phase, Event::Attempted(Completion::Received(fd))).1 == Action::Close(fd),
{
}

/// At most one syscall per readiness notification: an attempt follows only
/// a report of readiness while the transfer waits for one.
pub proof fn lemma_attempt_needs_readiness(p: Platform, phase: Phase, event: Event)
    ensures
        next(p, phase, event).1 == Action::Attempt ==> phase == Phase::Start && event
            == Event::Readiness(Readiness::Ready),
{
}

/// A receive that reads end of stream fails with `UnexpectedEof`, whatever
/// else the call reported.
pub proof fn lemma_eof_detected(p: Platform, errno: i32, data_cap: int, region: Seq<u8>, truncated: bool)
    ensures
        recv_result(p, 0, errno, data_cap, region, truncated) == Err::<i32, FdError>(
            FdError::UnexpectedEof,
        ),
{
}

/// Stream data that arrives without any control message is refused as
/// invalid data, never taken for a descriptor.
pub proof fn lemma_plain_data_refused(p: Platform, rv: int, errno: i32, data_cap: int, truncated: bool)
    requires
        p.wf(),
        0 < rv <= data_cap,
    ensures
        recv_result(p, rv, errno, data_cap, Seq::empty(), truncated) == Err::<i32, FdError>(
            FdError::InvalidData(InvalidData::Header),
        ),
{
}

} // verus!
