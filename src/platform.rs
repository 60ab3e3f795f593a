use vstd::arithmetic::div_mod::{lemma_fundamental_div_mod, lemma_mod_multiples_basic};
use vstd::prelude::*;

verus! {

/// What the protocol needs to know of the platform: the width of the
/// `cmsg_len` field, which is also the alignment of control messages, and the
/// constants that name socket-level rights messages and a refused
/// non-blocking call.
///
/// Control messages are laid out as on Linux: a header of `cmsg_len`
/// (one machine word), `cmsg_level` and `cmsg_type` (a native `int` each),
/// followed by the data, with every integer in little-endian byte order.
#[derive(Clone, Copy, Debug, PartialEq, Eq, Structural)]
pub struct Platform {
    /// Size in bytes of `cmsg_len`: 8 on 64-bit targets, 4 on 32-bit ones.
    pub word: usize,
    /// `SOL_SOCKET`.
    pub sol_socket: i32,
    /// `SCM_RIGHTS`.
    pub scm_rights: i32,
    /// `EAGAIN`.
    pub eagain: i32,
    /// `EWOULDBLOCK` (equal to `EAGAIN` on most platforms).
    pub ewouldblock: i32,
}

/// Size in bytes of a native `int`, the type of a descriptor.
pub const INT_LEN: usize = 4;

impl Platform {
    pub open spec fn wf(self) -> bool {
        self.word == 4 || self.word == 8
    }

    /// `CMSG_ALIGN`: `n` rounded up to a multiple of the word.
    pub open spec fn align_spec(self, n: nat) -> nat {
        let rem = n % (self.word as nat);
        if rem == 0 {
            n
        } else {
            (n + self.word - rem) as nat
        }
    }

    /// Size of a control message header, `CMSG_LEN(0)`.
    pub open spec fn header_spec(self) -> nat {
        (self.word + 8) as nat
    }

    /// `CMSG_LEN(data)`: header plus data, without trailing padding.
    pub open spec fn len_spec(self, data: nat) -> nat {
        self.header_spec() + data
    }

    /// `CMSG_SPACE(data)`: header plus data padded to the alignment.
    pub open spec fn space_spec(self, data: nat) -> nat {
        self.header_spec() + self.align_spec(data)
    }

    pub fn header_len(&self) -> (r: usize)
        requires
            self.wf(),
        ensures
            r == self.header_spec(),
    {
        self.word + 8
    }

    pub fn align(&self, n: usize) -> (r: usize)
        requires
            self.wf(),
            n <= usize::MAX - 8,
        ensures
            r == self.align_spec(n as nat),
            r >= n,
            r % self.word == 0,
            r < n + self.word,
    {
        let rem = n % self.word;
        let pad = if rem == 0 {
            0
        } else {
            self.word - rem
        };
        proof {
            let w = self.word as int;
            let q = n as int / w;
            lemma_fundamental_div_mod(n as int, w);
            if rem == 0 {
                assert(n + pad == q * w) by (nonlinear_arith)
                    requires
                        n == w * q + rem,
                        rem == 0,
                        pad == 0,
                ;
                lemma_mod_multiples_basic(q, w);
            } else {
                assert(n + pad == (q + 1) * w) by (nonlinear_arith)
                    requires
                        n == w * q + rem,
                        pad == w - rem,
                ;
                lemma_mod_multiples_basic(q + 1, w);
            }
        }
        n + pad
    }

    /// `CMSG_LEN`.
    pub fn cmsg_len(&self, data: usize) -> (r: usize)
        requires
            self.wf(),
            data <= usize::MAX - 16,
        ensures
            r == self.len_spec(data as nat),
    {
        self.header_len() + data
    }

    /// `CMSG_SPACE`.
    pub fn cmsg_space(&self, data: usize) -> (r: usize)
        requires
            self.wf(),
            data <= usize::MAX - 24,
        ensures
            r == self.space_spec(data as nat),
    {
        self.header_len() + self.align(data)
    }
}

} // verus!
