//! The code buffer of `dynasmrt` that the back end assembles into, seen
//! through the few operations that the library uses.

use vstd::prelude::*;
use dynasmrt::riscv::RiscvRelocation;
use dynasmrt::{DynamicLabel, DynasmApi, DynasmError, VecAssembler};

verus! {

/// A RISC-V code buffer: `dynasmrt`'s `VecAssembler` for RISC-V relocations.
/// Verus refuses a declaration of that type (its parameter is bound by a
/// trait of `dynasmrt`), so it is held here, hidden from Verus.
#[verifier::external_body]
pub struct CodeBuffer {
    inner: VecAssembler<RiscvRelocation>,
}

#[verifier::external_type_specification]
#[verifier::external_body]
pub struct ExDynamicLabel(DynamicLabel);

#[verifier::external_type_specification]
#[verifier::external_body]
pub struct ExDynasmError(DynasmError);

/// The bytes that a RISC-V code buffer holds.
pub uninterp spec fn code_bytes(a: CodeBuffer) -> Seq<u8>;

/// Whether a RISC-V code buffer holds neither a recorded error nor a
/// relocation that is still to be resolved.
pub uninterp spec fn code_is_settled(a: CodeBuffer) -> bool;

/// The number of dynamic labels made in a RISC-V code buffer so far.
pub uninterp spec fn code_label_count(a: CodeBuffer) -> nat;

/// The dynamic label with number `n`: `dynasmrt` numbers the dynamic labels
/// of a buffer 0, 1, 2, ... in the order they are made.
pub uninterp spec fn dynamic_label(n: nat) -> DynamicLabel;

/// The four bytes of a 32-bit word, least significant first.
pub open spec fn le_bytes(w: u32) -> Seq<u8> {
    seq![
        (w & 0xff) as u8,
        ((w >> 8u32) & 0xff) as u8,
        ((w >> 16u32) & 0xff) as u8,
        ((w >> 24u32) & 0xff) as u8,
    ]
}

/// The bytes of a sequence of 32-bit words, each least significant byte first.
pub open spec fn words_le(ws: Seq<u32>) -> Seq<u8>
    decreases ws.len(),
{
    if ws.len() == 0 {
        Seq::empty()
    } else {
        words_le(ws.drop_last()) + le_bytes(ws.last())
    }
}

/// `VecAssembler::new`: an empty buffer with no label, relocation or error.
#[verifier::external_body]
pub(crate) fn new_code_buffer(base_addr: usize) -> (a: CodeBuffer)
    ensures
        code_bytes(a) == Seq::<u8>::empty(),
        code_is_settled(a),
        code_label_count(a) == 0,
{
    CodeBuffer { inner: VecAssembler::new(base_addr) }
}

/// `DynasmApi::offset` of `VecAssembler`: the number of bytes in the buffer.
#[verifier::external_body]
pub(crate) fn code_buffer_len(a: &CodeBuffer) -> (n: usize)
    ensures
        n == code_bytes(*a).len(),
{
    a.inner.offset().0
}

/// `DynasmApi::push_u32` of `VecAssembler`: appends the word's four bytes,
/// least significant first, and touches neither relocations nor errors.
#[verifier::external_body]
pub(crate) fn code_buffer_push_u32(a: &mut CodeBuffer, w: u32)
    ensures
        code_bytes(*final(a)) == code_bytes(*old(a)) + le_bytes(w),
        code_is_settled(*final(a)) == code_is_settled(*old(a)),
        code_label_count(*final(a)) == code_label_count(*old(a)),
{
    a.inner.push_u32(w)
}

/// `VecAssembler::new_dynamic_label`: hands out the label numbered by how
/// many dynamic labels the buffer had made, which differs from each of
/// those, counts one label more, and leaves the bytes, relocations and
/// errors as they were.
#[verifier::external_body]
pub(crate) fn code_buffer_new_label(a: &mut CodeBuffer) -> (l: DynamicLabel)
    ensures
        code_bytes(*final(a)) == code_bytes(*old(a)),
        code_is_settled(*final(a)) == code_is_settled(*old(a)),
        code_label_count(*final(a)) == code_label_count(*old(a)) + 1,
        l == dynamic_label(code_label_count(*old(a))),
        forall|n: nat| n < code_label_count(*old(a)) ==> #[trigger] dynamic_label(n) != l,
{
    a.inner.new_dynamic_label()
}

/// `VecAssembler::finalize`: with nothing left to resolve and no recorded
/// error it hands back the buffer's bytes unchanged. Of a buffer with
/// pending relocations or an error nothing is stated.
#[verifier::external_body]
pub(crate) fn code_buffer_finalize(a: CodeBuffer) -> (r: Result<Vec<u8>, DynasmError>)
    ensures
        code_is_settled(a) ==> r is Ok,
        code_is_settled(a) ==> r->Ok_0@ == code_bytes(a),
{
    a.inner.finalize()
}

/// Appending one more word adds its four bytes at the end.
pub proof fn lemma_words_le_push(ws: Seq<u32>, w: u32)
    ensures
        words_le(ws.push(w)) == words_le(ws) + le_bytes(w),
{
    assert(ws.push(w).drop_last() =~= ws);
}

/// Appends the words to the buffer, each least significant byte first.
pub(crate) fn emit_words(a: &mut CodeBuffer, ws: &[u32])
    ensures
        code_bytes(*final(a)) == code_bytes(*old(a)) + words_le(ws@),
        code_is_settled(*final(a)) == code_is_settled(*old(a)),
        code_label_count(*final(a)) == code_label_count(*old(a)),
{
    let mut i: usize = 0;
    assert(ws@.subrange(0, 0) =~= Seq::<u32>::empty());
    assert(code_bytes(*a) =~= code_bytes(*old(a)) + words_le(ws@.subrange(0, 0)));
    while i < ws.len()
        invariant
            i <= ws.len(),
            code_bytes(*a) == code_bytes(*old(a)) + words_le(ws@.subrange(0, i as int)),
            code_is_settled(*a) == code_is_settled(*old(a)),
            code_label_count(*a) == code_label_count(*old(a)),
        decreases ws.len() - i,
    {
        let w: u32 = ws[i];
        code_buffer_push_u32(a, w);
        proof {
            assert(ws@.subrange(0, i as int + 1) =~= ws@.subrange(0, i as int).push(w));
            lemma_words_le_push(ws@.subrange(0, i as int), w);
            assert(code_bytes(*a) =~= code_bytes(*old(a)) + words_le(ws@.subrange(0, i as int + 1)));
        }
        i = i + 1;
    }
    assert(ws@.subrange(0, ws.len() as int) =~= ws@);
}

} // verus!
