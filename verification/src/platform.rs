//! The constants that the kernel fixes for one architecture, as plain values.
//!
//! The library is proved for every set of constants that satisfies
//! [`Platform::wf`]; the caller fills the structure from the kernel's
//! interface definitions.

use vstd::prelude::*;
use vstd::arithmetic::power2::{pow2, lemma_pow2_adds, lemma_pow2_pos, lemma_pow2_strictly_increases, lemma2_to64};
use vstd::bits::{lemma_usize_pow2_no_overflow, lemma_usize_shl_is_mul};
use vstd::layout::unsigned_int_max_values;
use crate::kernel::CPtr;

verus! {

/// Smallest stack, in bytes, that a thread may be given.
pub const MIN_STACK_SIZE: usize = 512;

/// Architecture constants and the well-known capabilities of the initial thread.
#[derive(Clone, Copy, Debug, PartialEq, Eq, Structural)]
pub struct Platform {
    /// Width of a machine word, in bits.
    pub word_bits: usize,
    /// log2 of the size of a small page.
    pub page_bits: usize,
    /// log2 of the size of one capability slot.
    pub slot_bits: usize,
    /// log2 of the size of a thread control block.
    pub tcb_bits: usize,
    /// log2 of the size of an endpoint.
    pub endpoint_bits: usize,
    /// log2 of the size of a notification.
    pub notification_bits: usize,
    /// log2 of the size of a page table.
    pub page_table_bits: usize,
    /// The initial thread's own control block.
    pub init_thread_tcb: CPtr,
    /// Root of the initial thread's capability space.
    pub init_thread_cnode: CPtr,
    /// Root of the initial thread's address space.
    pub init_thread_vspace: CPtr,
}

/// `2^bits` as a machine word.
pub fn pow2_usize(bits: usize) -> (value: usize)
    requires
        bits < usize::BITS,
    ensures
        value == pow2(bits as nat),
{
    proof {
        lemma_usize_pow2_no_overflow(bits as nat);
        lemma_usize_shl_is_mul(1, bits);
    }
    1usize << bits
}

/// Three objects, each at most a quarter of the address space, fit in a word together.
proof fn lemma_three_quarters_fit(a: nat, b: nat, c: nat, word_bits: nat)
    requires
        2 <= word_bits <= usize::BITS,
        a + 2 <= word_bits,
        b + 2 <= word_bits,
        c + 2 <= word_bits,
    ensures
        pow2(a) + pow2(b) + pow2(c) <= usize::MAX,
{
    let top = (usize::BITS - 2) as nat;
    unsigned_int_max_values();
    lemma2_to64();
    lemma_pow2_adds(top, 2);
    lemma_pow2_pos(top);
    if a < top {
        lemma_pow2_strictly_increases(a, top);
    }
    if b < top {
        lemma_pow2_strictly_increases(b, top);
    }
    if c < top {
        lemma_pow2_strictly_increases(c, top);
    }
}

impl Platform {
    /// The constants can be used: the stack alignment is not zero, and a thread
    /// control block, a page and an endpoint together fit in the address space.
    pub open spec fn wf(&self) -> bool {
        &&& 8 <= self.word_bits <= usize::BITS
        &&& self.tcb_bits + 2 <= self.word_bits
        &&& self.page_bits + 2 <= self.word_bits
        &&& self.endpoint_bits + 2 <= self.word_bits
    }

    /// Alignment required of a stack: two machine words, in bytes.
    pub open spec fn spec_stack_alignment(&self) -> int {
        (self.word_bits / 8) * 2
    }

    /// Bytes of untyped memory that one endpoint takes.
    pub open spec fn spec_endpoint_bytes(&self) -> nat {
        pow2(self.endpoint_bits as nat)
    }

    /// Bytes of untyped memory that one thread takes: its control block, the
    /// frame of its IPC buffer, and its endpoint.
    pub open spec fn spec_thread_bytes(&self) -> nat {
        pow2(self.tcb_bits as nat) + pow2(self.page_bits as nat) + pow2(
            self.endpoint_bits as nat,
        )
    }

    /// Tells whether the constants satisfy [`Platform::wf`].
    pub fn is_wf(&self) -> (ok: bool)
        ensures
            ok == self.wf(),
    {
        8 <= self.word_bits && self.word_bits <= usize::BITS as usize && self.tcb_bits
            <= self.word_bits - 2 && self.page_bits <= self.word_bits - 2 && self.endpoint_bits
            <= self.word_bits - 2
    }

    /// Alignment required of a stack: two machine words, in bytes.
    pub fn stack_alignment(&self) -> (alignment: usize)
        ensures
            alignment == self.spec_stack_alignment(),
            self.wf() ==> alignment >= 2,
    {
        (self.word_bits / 8) * 2
    }

    /// Bytes of untyped memory that one endpoint takes.
    pub fn endpoint_bytes(&self) -> (bytes: usize)
        requires
            self.wf(),
        ensures
            bytes == self.spec_endpoint_bytes(),
    {
        pow2_usize(self.endpoint_bits)
    }

    /// Bytes of untyped memory that one thread takes.
    pub fn thread_bytes(&self) -> (bytes: usize)
        requires
            self.wf(),
        ensures
            bytes == self.spec_thread_bytes(),
    {
        proof {
            lemma_three_quarters_fit(
                self.tcb_bits as nat,
                self.page_bits as nat,
                self.endpoint_bits as nat,
                self.word_bits as nat,
            );
            lemma_pow2_pos(self.tcb_bits as nat);
            lemma_pow2_pos(self.page_bits as nat);
            lemma_pow2_pos(self.endpoint_bits as nat);
        }
        pow2_usize(self.tcb_bits) + pow2_usize(self.page_bits) + pow2_usize(self.endpoint_bits)
    }
}

} // verus!
