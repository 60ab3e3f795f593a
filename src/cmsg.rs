use crate::error::InvalidData;
use crate::platform::{Platform, INT_LEN};
use vstd::bytes::{
    spec_u32_from_le_bytes, spec_u32_to_le_bytes, spec_u64_from_le_bytes, spec_u64_to_le_bytes,
    u32_from_le_bytes, u32_to_le_bytes, u64_from_le_bytes, u64_to_le_bytes,
};
use vstd::prelude::*;
use vstd::slice::slice_subrange;

verus! {

/// The bytes of a native `int`.
pub open spec fn int_bytes(v: i32) -> Seq<u8> {
    spec_u32_to_le_bytes(v as u32)
}

/// The native `int` stored at `off` in `s`.
pub open spec fn int_at(s: Seq<u8>, off: int) -> i32 {
    spec_u32_from_le_bytes(s.subrange(off, off + 4)) as i32
}

/// The bytes of a `cmsg_len` field holding `v`.
pub open spec fn word_bytes(p: Platform, v: nat) -> Seq<u8> {
    if p.word == 8 {
        spec_u64_to_le_bytes(v as u64)
    } else {
        spec_u32_to_le_bytes(v as u32)
    }
}

/// The `cmsg_len` field of the record that starts at `off`.
pub open spec fn record_len(p: Platform, s: Seq<u8>, off: int) -> nat {
    let b = s.subrange(off, off + p.word);
    if p.word == 8 {
        spec_u64_from_le_bytes(b) as nat
    } else {
        spec_u32_from_le_bytes(b) as nat
    }
}

/// The `cmsg_level` field of the record that starts at `off`.
pub open spec fn record_level(p: Platform, s: Seq<u8>, off: int) -> i32 {
    int_at(s, off + p.word)
}

/// The `cmsg_type` field of the record that starts at `off`.
pub open spec fn record_type(p: Platform, s: Seq<u8>, off: int) -> i32 {
    int_at(s, off + p.word + 4)
}

/// The control region that carries the single descriptor `fd`: a
/// `SOL_SOCKET` / `SCM_RIGHTS` header of length `CMSG_LEN(sizeof(int))`,
/// the descriptor, and zero padding up to `CMSG_SPACE(sizeof(int))`.
pub open spec fn rights_frame(p: Platform, fd: i32) -> Seq<u8> {
    word_bytes(p, p.len_spec(4)) + int_bytes(p.sol_socket) + int_bytes(p.scm_rights) + int_bytes(fd)
        + Seq::new((p.space_spec(4) - p.len_spec(4)) as nat, |i: int| 0u8)
}

/// What a received control region `s` yields: the one descriptor of a
/// well-formed rights message, or why it was refused. `truncated` is the
/// kernel's `MSG_CTRUNC` flag.
pub open spec fn decode_spec(p: Platform, s: Seq<u8>, truncated: bool) -> Result<i32, InvalidData> {
    if s.len() < p.header_spec() {
        Err(InvalidData::Header)
    } else if record_level(p, s, 0) != p.sol_socket || record_type(p, s, 0) != p.scm_rights {
        Err(InvalidData::Level)
    } else if truncated {
        Err(InvalidData::Truncated)
    } else if s.len() != p.space_spec(4) || record_len(p, s, 0) != p.len_spec(4) {
        Err(InvalidData::Length)
    } else {
        Ok(int_at(s, p.header_spec() as int))
    }
}

/// Whether a whole record, header and data, starts at `off`.
pub open spec fn record_fits(p: Platform, s: Seq<u8>, off: int) -> bool {
    &&& p.wf()
    &&& 0 <= off
    &&& off + p.header_spec() <= s.len()
    &&& p.header_spec() <= record_len(p, s, off)
    &&& off + record_len(p, s, off) <= s.len()
}

/// Whether the record at `off` is a socket-level rights message.
pub open spec fn is_rights(p: Platform, s: Seq<u8>, off: int) -> bool {
    record_level(p, s, off) == p.sol_socket && record_type(p, s, off) == p.scm_rights
}

/// The descriptors in the data of the record at `off`, if it is a rights
/// message.
pub open spec fn record_fds(p: Platform, s: Seq<u8>, off: int) -> Seq<i32> {
    if is_rights(p, s, off) {
        let n = ((record_len(p, s, off) - p.header_spec()) / 4) as nat;
        Seq::new(n, |i: int| int_at(s, off + p.header_spec() + 4 * i))
    } else {
        Seq::empty()
    }
}

/// Every descriptor that the records from `off` on carry, in order. The
/// walk follows `CMSG_NXTHDR`: the next record starts at the aligned end
/// of this one, and it stops at the first record that does not fit.
pub open spec fn carried_from(p: Platform, s: Seq<u8>, off: int) -> Seq<i32>
    decreases s.len() - off,
{
    if record_fits(p, s, off) {
        let next = off + p.align_spec(record_len(p, s, off));
        if next <= s.len() && next > off {
            record_fds(p, s, off) + carried_from(p, s, next)
        } else {
            record_fds(p, s, off)
        }
    } else {
        Seq::empty()
    }
}

fn push_all(out: &mut Vec<u8>, mut more: Vec<u8>)
    ensures
        final(out)@ == old(out)@ + more@,
{
    out.append(&mut more);
}

/// Builds the control region that carries `fd` (the sending side's
/// staging buffer, `CMSG_SPACE(sizeof(int))` bytes).
pub fn encode_rights(p: &Platform, fd: i32) -> (r: Vec<u8>)
    requires
        p.wf(),
    ensures
        r@ == rights_frame(*p, fd),
        r@.len() == p.space_spec(4),
{
    let len = p.cmsg_len(INT_LEN);
    let mut out = if p.word == 8 {
        u64_to_le_bytes(len as u64)
    } else {
        u32_to_le_bytes(len as u32)
    };
    push_all(&mut out, u32_to_le_bytes(p.sol_socket as u32));
    push_all(&mut out, u32_to_le_bytes(p.scm_rights as u32));
    push_all(&mut out, u32_to_le_bytes(fd as u32));
    let space = p.cmsg_space(INT_LEN);
    let ghost head = out@;
    let mut i: usize = len;
    while i < space
        invariant
            p.wf(),
            len == p.len_spec(4),
            space == p.space_spec(4),
            len <= i <= space,
            out@ == head + Seq::new((i - len) as nat, |k: int| 0u8),
        decreases space - i,
    {
        out.push(0u8);
        i = i + 1;
        assert(out@ =~= head + Seq::new((i - len) as nat, |k: int| 0u8));
    }
    proof {
        vstd::bytes::lemma_auto_spec_u64_to_from_le_bytes();
        vstd::bytes::lemma_auto_spec_u32_to_from_le_bytes();
    }
    out
}

/// Reads the native `int` at `off`.
fn read_int(s: &[u8], off: usize) -> (r: i32)
    requires
        off + 4 <= s@.len(),
    ensures
        r == int_at(s@, off as int),
{
    let _n = s.len();
    u32_from_le_bytes(slice_subrange(s, off, off + 4)) as i32
}

/// Reads the `cmsg_len` field of the record at `off`.
fn read_len(p: &Platform, s: &[u8], off: usize) -> (r: usize)
    requires
        p.wf(),
        off + p.word <= s@.len(),
    ensures
        record_len(*p, s@, off as int) <= usize::MAX ==> r == record_len(*p, s@, off as int),
        record_len(*p, s@, off as int) > usize::MAX ==> r == usize::MAX,
{
    let _n = s.len();
    if p.word == 8 {
        let v = u64_from_le_bytes(slice_subrange(s, off, off + 8));
        if v > usize::MAX as u64 {
            usize::MAX
        } else {
            v as usize
        }
    } else {
        u32_from_le_bytes(slice_subrange(s, off, off + 4)) as usize
    }
}

/// Judges a received control region (the first `msg_controllen` bytes of
/// the receiving side's staging buffer).
pub fn decode_rights(p: &Platform, s: &[u8], truncated: bool) -> (r: Result<i32, InvalidData>)
    requires
        p.wf(),
    ensures
        r == decode_spec(*p, s@, truncated),
{
    let header = p.header_len();
    if s.len() < header {
        return Err(InvalidData::Header);
    }
    let level = read_int(s, p.word);
    let kind = read_int(s, p.word + 4);
    if level != p.sol_socket || kind != p.scm_rights {
        return Err(InvalidData::Level);
    }
    if truncated {
        return Err(InvalidData::Truncated);
    }
    let len = read_len(p, s, 0);
    if s.len() != p.cmsg_space(INT_LEN) || len != p.cmsg_len(INT_LEN) {
        return Err(InvalidData::Length);
    }
    Ok(read_int(s, header))
}

/// Lists every descriptor that a received control region carries, so that
/// a receive that fails can close them instead of leaking them.
pub fn carried(p: &Platform, s: &[u8]) -> (r: Vec<i32>)
    requires
        p.wf(),
        s@.len() <= isize::MAX,
    ensures
        r@ == carried_from(*p, s@, 0),
{
    let n = s.len();
    let header = p.header_len();
    let mut out: Vec<i32> = Vec::new();
    let mut off: usize = 0;
    loop
        invariant_except_break
            out@ + carried_from(*p, s@, off as int) == carried_from(*p, s@, 0),
        invariant
            p.wf(),
            n == s@.len(),
            n <= isize::MAX,
            header == p.header_spec(),
            off <= n,
        ensures
            out@ == carried_from(*p, s@, 0),
        decreases n - off,
    {
        if n - off < header {
            assert(carried_from(*p, s@, off as int) == Seq::<i32>::empty());
            assert(out@ + Seq::<i32>::empty() =~= out@);
            break;
        }
        let len = read_len(p, s, off);
        if len < header || len > n - off {
            assert(carried_from(*p, s@, off as int) == Seq::<i32>::empty());
            assert(out@ + Seq::<i32>::empty() =~= out@);
            break;
        }
        let ghost before = out@;
        let ghost here = record_fds(*p, s@, off as int);
        if read_int(s, off + p.word) == p.sol_socket && read_int(s, off + p.word + 4) == p.scm_rights {
            let count = (len - header) / INT_LEN;
            let mut k: usize = 0;
            while k < count
                invariant
                    p.wf(),
                    n == s@.len(),
                    header == p.header_spec(),
                    len == record_len(*p, s@, off as int),
                    header <= len,
                    off + len <= n,
                    is_rights(*p, s@, off as int),
                    count == (len - header) / 4,
                    k <= count,
                    here == record_fds(*p, s@, off as int),
                    out@ == before + here.subrange(0, k as int),
                decreases count - k,
            {
                let fd = read_int(s, off + header + INT_LEN * k);
                out.push(fd);
                k = k + 1;
                assert(out@ =~= before + here.subrange(0, k as int));
            }
            assert(here.subrange(0, k as int) =~= here);
        } else {
            assert(here =~= Seq::<i32>::empty());
            assert(out@ =~= before + here);
        }
        let step = p.align(len);
        if step > n - off {
            assert(carried_from(*p, s@, off as int) == here);
            assert(before + here == carried_from(*p, s@, 0));
            break;
        }
        assert(carried_from(*p, s@, off as int) == here + carried_from(*p, s@, (off + step) as int));
        assert(before + (here + carried_from(*p, s@, (off + step) as int)) =~= (before + here) + carried_from(*p, s@, (off + step) as int));
        off = off + step;
    }
    out
}

} // verus!
