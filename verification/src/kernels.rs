//! Host-side logic of the elementwise `add` kernel.
//!
//! The kernel adds two equally long, non-empty vectors of 32-bit floats on
//! the device. Before the device is touched, the operands are checked, the
//! storage buffers are sized, the number of workgroups to dispatch is fixed
//! and the operands are laid out as bytes; after the device has run, the
//! output buffer's bytes are read back as words. Elements are carried here as
//! their 32-bit patterns: the host never does float arithmetic.

use vstd::prelude::*;

use crate::words::{decode, decode_words, encode, encode_words, host_byte_order, word_to_bytes, ByteOrder};

verus! {

/// Invocations per workgroup of the `add` compute shader.
pub const WORKGROUP_SIZE: usize = 64;

/// Bytes per operand element (a 32-bit float).
pub const ELEMENT_BYTES: usize = 4;

/// Workgroups needed to give each of `n` elements its own invocation.
pub open spec fn groups_needed(n: int) -> int {
    (n + WORKGROUP_SIZE - 1) / (WORKGROUP_SIZE as int)
}

/// The number of workgroups dispatched for `element_count` elements: the
/// ceiling of `element_count / WORKGROUP_SIZE`, narrowed to the `u32` that a
/// dispatch takes (the narrowing keeps the low 32 bits).
pub fn workgroup_count(element_count: usize) -> (r: u32)
    ensures
        r == groups_needed(element_count as int) as u32,
        element_count == 0 ==> r == 0,
        0 < element_count <= WORKGROUP_SIZE * 0xffff_ffff ==> r as int * WORKGROUP_SIZE >= element_count
            && (r as int - 1) * WORKGROUP_SIZE < element_count,
{
    let full = element_count / WORKGROUP_SIZE;
    let groups = if element_count % WORKGROUP_SIZE == 0 {
        full
    } else {
        full + 1
    };
    assert(groups == groups_needed(element_count as int));
    groups as u32
}

/// A dispatch of `groups_needed(n)` workgroups runs an invocation for every
/// one of the `n > 0` elements, and its last workgroup is needed: one
/// workgroup fewer would leave elements out. So every element is computed, and
/// the shader's own bounds check only has to stop the surplus invocations of
/// the last workgroup.
pub proof fn lemma_workgroups_cover(n: int)
    requires
        0 < n,
        groups_needed(n) <= u32::MAX,
    ensures
        (groups_needed(n) as u32) * WORKGROUP_SIZE >= n,
        ((groups_needed(n) as u32) - 1) * WORKGROUP_SIZE < n,
        ((groups_needed(n) as u32) * WORKGROUP_SIZE) - n < WORKGROUP_SIZE,
{
}

/// The ceiling of `n / WORKGROUP_SIZE` is the only workgroup count that
/// gives every one of `n > 0` elements an invocation without a workgroup to
/// spare, and `groups_needed` is that count.
pub proof fn lemma_groups_needed_is_the_ceiling(n: int, g: int)
    requires
        0 < n,
        g * WORKGROUP_SIZE >= n,
        (g - 1) * WORKGROUP_SIZE < n,
    ensures
        g == groups_needed(n),
        g > 0,
{
}

/// The size in bytes of a buffer of `element_count` elements.
pub fn buffer_size(element_count: usize) -> (r: u64)
    requires
        element_count * ELEMENT_BYTES <= usize::MAX,
    ensures
        r == element_count * ELEMENT_BYTES,
{
    (element_count * ELEMENT_BYTES) as u64
}

/// Why two operands cannot be added.
#[derive(Clone, Copy, Debug, PartialEq, Eq, Structural)]
pub enum OperandError {
    /// The operands differ in length.
    LengthMismatch,
    /// The operands are empty.
    Empty,
}

/// Everything the device needs for one run of the `add` kernel, and what the
/// host needs to read its output back.
pub struct AddDispatch {
    /// Elements per operand, and in the output.
    pub element_count: usize,
    /// Bytes per operand buffer, and in the output buffer.
    pub byte_size: u64,
    /// Workgroups to dispatch.
    pub workgroup_count: u32,
    /// The byte order the buffers are laid out in.
    pub byte_order: ByteOrder,
    /// The byte image of the first operand.
    pub a_bytes: Vec<u8>,
    /// The byte image of the second operand.
    pub b_bytes: Vec<u8>,
}

impl AddDispatch {
    /// The dispatch's fields agree with each other.
    pub open spec fn well_formed(&self) -> bool {
        &&& self.element_count > 0
        &&& self.byte_size == self.element_count * ELEMENT_BYTES
        &&& self.workgroup_count == groups_needed(self.element_count as int) as u32
        &&& self.a_bytes@.len() == self.byte_size
        &&& self.b_bytes@.len() == self.byte_size
    }

    /// The dispatch of the operands `a` and `b`, laid out in `order`.
    pub open spec fn describes(&self, order: ByteOrder, a: Seq<u32>, b: Seq<u32>) -> bool {
        &&& self.well_formed()
        &&& self.element_count == a.len()
        &&& self.byte_order == order
        &&& self.a_bytes@ == encode(order, a)
        &&& self.b_bytes@ == encode(order, b)
    }

    /// The words of the output, read back from the bytes of the mapped output buffer.
    pub fn read_back(&self, mapped: &[u8]) -> (r: Vec<u32>)
        requires
            mapped@.len() % 4 == 0,
        ensures
            r@ == decode(self.byte_order, mapped@),
            self.well_formed() && mapped@.len() == self.byte_size ==> r@.len() == self.element_count,
    {
        decode_words(self.byte_order, mapped)
    }
}

/// A read gives back what was written: when the output buffer of a dispatch
/// holds the byte image of one word per element, laid out in the dispatch's
/// byte order, it has the buffer's size and `read_back` returns those words.
pub proof fn lemma_read_back_of_written(p: AddDispatch, w: Seq<u32>)
    requires
        p.well_formed(),
        w.len() == p.element_count,
    ensures
        encode(p.byte_order, w).len() == p.byte_size,
        encode(p.byte_order, w).len() % 4 == 0,
        decode(p.byte_order, encode(p.byte_order, w)) == w,
{
    crate::words::lemma_decode_encode(p.byte_order, w);
}

/// The reason `add` refuses operands of lengths `a_len` and `b_len`, if it does.
pub open spec fn operand_error(a_len: int, b_len: int) -> Option<OperandError> {
    if a_len != b_len {
        Some(OperandError::LengthMismatch)
    } else if a_len == 0 {
        Some(OperandError::Empty)
    } else {
        None
    }
}

/// `add` refuses operands exactly when their lengths differ (a length
/// mismatch) or when both are empty.
pub proof fn lemma_operand_error_exact(a_len: int, b_len: int)
    ensures
        operand_error(a_len, b_len) is None <==> (a_len == b_len && a_len != 0),
        operand_error(a_len, b_len) == Some(OperandError::LengthMismatch) <==> a_len != b_len,
        operand_error(a_len, b_len) == Some(OperandError::Empty) <==> (a_len == b_len && a_len == 0),
{
}

/// Checks the operands of `add` and plans its dispatch with the buffers laid
/// out in `order`.
pub fn plan_add_in(order: ByteOrder, a: &[u32], b: &[u32]) -> (r: Result<AddDispatch, OperandError>)
    requires
        a@.len() * ELEMENT_BYTES <= usize::MAX,
        b@.len() * ELEMENT_BYTES <= usize::MAX,
    ensures
        match operand_error(a@.len() as int, b@.len() as int) {
            Some(e) => r == Err::<AddDispatch, OperandError>(e),
            None => r matches Ok(p) && p.describes(order, a@, b@),
        },
        r matches Ok(p) ==> decode(order, p.a_bytes@) == a@ && decode(order, p.b_bytes@) == b@,
        a@.len() != b@.len() ==> r == Err::<AddDispatch, OperandError>(OperandError::LengthMismatch),
        a@.len() == b@.len() && a@.len() == 0 ==> r == Err::<AddDispatch, OperandError>(
            OperandError::Empty,
        ),
        a@.len() == b@.len() && a@.len() > 0 ==> r is Ok,
        r matches Ok(p) ==> {
            &&& p.element_count == a@.len()
            &&& p.byte_size == 4 * a@.len()
            &&& a@.len() <= WORKGROUP_SIZE * 0xffff_ffff ==> p.workgroup_count as int * WORKGROUP_SIZE
                >= a@.len() && (p.workgroup_count as int - 1) * WORKGROUP_SIZE < a@.len()
            &&& p.a_bytes@.len() == 4 * a@.len()
            &&& p.b_bytes@.len() == 4 * b@.len()
            &&& forall|i: int|
                0 <= i < a@.len() ==> p.a_bytes@.subrange(4 * i, 4 * i + 4) == word_to_bytes(
                    p.byte_order,
                    #[trigger] a@[i],
                )
            &&& forall|i: int|
                0 <= i < b@.len() ==> p.b_bytes@.subrange(4 * i, 4 * i + 4) == word_to_bytes(
                    p.byte_order,
                    #[trigger] b@[i],
                )
        },
{
    if a.len() != b.len() {
        return Err(OperandError::LengthMismatch);
    }
    if a.len() == 0 {
        return Err(OperandError::Empty);
    }
    let element_count = a.len();
    let byte_size = buffer_size(element_count);
    let workgroup_count = workgroup_count(element_count);
    let a_bytes = encode_words(order, a);
    let b_bytes = encode_words(order, b);
    proof {
        crate::words::lemma_decode_encode(order, a@);
        crate::words::lemma_decode_encode(order, b@);
    }
    let plan = AddDispatch { element_count, byte_size, workgroup_count, byte_order: order, a_bytes, b_bytes };
    assert(forall|i: int|
        0 <= i < a@.len() ==> plan.a_bytes@.subrange(4 * i, 4 * i + 4) == word_to_bytes(
            plan.byte_order,
            #[trigger] a@[i],
        ));
    assert(forall|i: int|
        0 <= i < b@.len() ==> plan.b_bytes@.subrange(4 * i, 4 * i + 4) == word_to_bytes(
            plan.byte_order,
            #[trigger] b@[i],
        ));
    Ok(plan)
}

/// Checks the operands of `add` and plans its dispatch with the buffers laid
/// out in the host's byte order, the order in which the device's output is
/// read back too.
pub fn plan_add(a: &[u32], b: &[u32]) -> (r: Result<AddDispatch, OperandError>)
    requires
        a@.len() * ELEMENT_BYTES <= usize::MAX,
        b@.len() * ELEMENT_BYTES <= usize::MAX,
    ensures
        match operand_error(a@.len() as int, b@.len() as int) {
            Some(e) => r == Err::<AddDispatch, OperandError>(e),
            None => r matches Ok(p) && p.describes(p.byte_order, a@, b@),
        },
        r matches Ok(p) ==> decode(p.byte_order, p.a_bytes@) == a@ && decode(p.byte_order, p.b_bytes@)
            == b@,
        a@.len() != b@.len() ==> r == Err::<AddDispatch, OperandError>(OperandError::LengthMismatch),
        a@.len() == b@.len() && a@.len() == 0 ==> r == Err::<AddDispatch, OperandError>(
            OperandError::Empty,
        ),
        a@.len() == b@.len() && a@.len() > 0 ==> r is Ok,
        r matches Ok(p) ==> {
            &&& p.element_count == a@.len()
            &&& p.byte_size == 4 * a@.len()
            &&& a@.len() <= WORKGROUP_SIZE * 0xffff_ffff ==> p.workgroup_count as int * WORKGROUP_SIZE
                >= a@.len() && (p.workgroup_count as int - 1) * WORKGROUP_SIZE < a@.len()
            &&& p.a_bytes@.len() == 4 * a@.len()
            &&& p.b_bytes@.len() == 4 * b@.len()
            &&& forall|i: int|
                0 <= i < a@.len() ==> p.a_bytes@.subrange(4 * i, 4 * i + 4) == word_to_bytes(
                    p.byte_order,
                    #[trigger] a@[i],
                )
            &&& forall|i: int|
                0 <= i < b@.len() ==> p.b_bytes@.subrange(4 * i, 4 * i + 4) == word_to_bytes(
                    p.byte_order,
                    #[trigger] b@[i],
                )
        },
{
    let order = host_byte_order();
    plan_add_in(order, a, b)
}

} // verus!
