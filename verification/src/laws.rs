//! Laws of the interpreter, proved from the model: what single instructions
//! and whole programs are guaranteed to produce.

use vstd::prelude::*;
use crate::float_bits::{
    fadd_bits, fsub_bits, fmul_bits, fdiv_bits, int_to_float_bits, float_bits_to_int,
};
use crate::model::{
    word_at, le_bytes, top_or, drop_top, run_from, run_spec, end_value, recognized, OP_PUSH_INT,
    OP_PUSH_FLOAT, OP_FSUB, OP_FADD, OP_FMUL, OP_FDIV, OP_RETURN_INT, OP_RETURN_FLOAT_BITS,
    NO_RESULT, ERR_TRUNCATED_PUSH, ERR_UNKNOWN_OPCODE, ZERO_BITS, ONE_BITS,
};

verus! {

/// Executing a PUSH_INT instruction whose four little-endian immediate bytes
/// encode the integer `v`, followed by RETURN_INT, returns `v` widened to a
/// float and truncated back to an integer — which is `v` itself wherever the
/// widening is exact.
pub proof fn lemma_push_int_return(b0: u8, b1: u8, b2: u8, b3: u8)
    ensures
        ({
            let prog = seq![OP_PUSH_INT, b0, b1, b2, b3, OP_RETURN_INT];
            run_spec(prog) == float_bits_to_int(int_to_float_bits(word_at(prog, 1) as i32))
        }),
{
    let prog = seq![OP_PUSH_INT, b0, b1, b2, b3, OP_RETURN_INT];
    let v = word_at(prog, 1) as i32;
    let s1 = Seq::<u32>::empty().push(int_to_float_bits(v));
    assert(run_spec(prog) == run_from(prog, 5, s1, Seq::empty()));
    assert(run_from(prog, 5, s1, Seq::empty()) == float_bits_to_int(top_or(s1, ZERO_BITS)));
}

/// Decoding the little-endian bytes of a 32-bit word gives the word back.
pub proof fn lemma_word_at_le_bytes(code: Seq<u8>, i: int, w: u32)
    requires
        0 <= i,
        i + 4 <= code.len(),
        code.subrange(i, i + 4) == le_bytes(w),
    ensures
        word_at(code, i) == w,
{
    assert(code[i] == le_bytes(w)[0]);
    assert(code[i + 1] == le_bytes(w)[1]);
    assert(code[i + 2] == le_bytes(w)[2]);
    assert(code[i + 3] == le_bytes(w)[3]);
    assert((w & 0xFF) < 0x100 && ((w >> 8) & 0xFF) < 0x100 && ((w >> 16) & 0xFF) < 0x100 && ((w
        >> 24) & 0xFF) < 0x100) by (bit_vector);
    assert(((w & 0xFF) + ((w >> 8) & 0xFF) * 0x100 + ((w >> 16) & 0xFF) * 0x1_0000 + ((w >> 24)
        & 0xFF) * 0x100_0000) as u32 == w) by (bit_vector);
}

/// Executing a PUSH_INT instruction carrying the little-endian bytes of the
/// integer `v`, followed by RETURN_INT, returns `v` widened to a float and
/// truncated back to an integer — which is `v` itself wherever the widening is
/// exact.
pub proof fn lemma_push_int_value_round_trip(v: i32)
    ensures
        run_spec(seq![OP_PUSH_INT] + le_bytes(v as u32) + seq![OP_RETURN_INT])
            == float_bits_to_int(int_to_float_bits(v)),
{
    let w = v as u32;
    let prog = seq![OP_PUSH_INT] + le_bytes(w) + seq![OP_RETURN_INT];
    let flat = seq![
        OP_PUSH_INT,
        le_bytes(w)[0],
        le_bytes(w)[1],
        le_bytes(w)[2],
        le_bytes(w)[3],
        OP_RETURN_INT,
    ];
    assert(prog =~= flat);
    lemma_push_int_return(le_bytes(w)[0], le_bytes(w)[1], le_bytes(w)[2], le_bytes(w)[3]);
    assert(flat.subrange(1, 5) =~= le_bytes(w));
    lemma_word_at_le_bytes(flat, 1, w);
    assert(w as i32 == v) by (bit_vector)
        requires
            w == v as u32,
    ;
}

/// Executing a PUSH_FLOAT instruction followed by RETURN_FLOAT_BITS returns
/// exactly the bit pattern of the four little-endian immediate bytes.
pub proof fn lemma_push_float_return_bits(b0: u8, b1: u8, b2: u8, b3: u8)
    ensures
        ({
            let prog = seq![OP_PUSH_FLOAT, b0, b1, b2, b3, OP_RETURN_FLOAT_BITS];
            run_spec(prog) == word_at(prog, 1) as i32
        }),
{
    let prog = seq![OP_PUSH_FLOAT, b0, b1, b2, b3, OP_RETURN_FLOAT_BITS];
    let s1 = Seq::<u32>::empty().push(word_at(prog, 1));
    assert(run_spec(prog) == run_from(prog, 5, s1, Seq::empty()));
    assert(run_from(prog, 5, s1, Seq::empty()) == top_or(s1, ZERO_BITS) as i32);
}

/// Executing a PUSH_FLOAT instruction carrying the little-endian bytes of a
/// float's bit pattern, followed by RETURN_FLOAT_BITS, returns exactly that
/// bit pattern: the float round-trips bit for bit.
pub proof fn lemma_push_float_bits_round_trip(bits: u32)
    ensures
        run_spec(seq![OP_PUSH_FLOAT] + le_bytes(bits) + seq![OP_RETURN_FLOAT_BITS])
            == bits as i32,
{
    let prog = seq![OP_PUSH_FLOAT] + le_bytes(bits) + seq![OP_RETURN_FLOAT_BITS];
    let flat = seq![
        OP_PUSH_FLOAT,
        le_bytes(bits)[0],
        le_bytes(bits)[1],
        le_bytes(bits)[2],
        le_bytes(bits)[3],
        OP_RETURN_FLOAT_BITS,
    ];
    assert(prog =~= flat);
    lemma_push_float_return_bits(le_bytes(bits)[0], le_bytes(bits)[1], le_bytes(bits)[2],
        le_bytes(bits)[3]);
    assert(flat.subrange(1, 5) =~= le_bytes(bits));
    lemma_word_at_le_bytes(flat, 1, bits);
}

/// The binary arithmetic opcodes respect stack order: with `a` pushed before
/// `b`, the earlier push is the left operand — FSUB computes a - b, FADD
/// a + b, FMUL a * b and FDIV a / b, never the operands swapped.
pub proof fn lemma_binop_stack_order(
    code: Seq<u8>,
    ip: int,
    stack: Seq<u32>,
    buffer: Seq<u32>,
    a: u32,
    b: u32,
)
    requires
        0 <= ip < code.len(),
    ensures
        code[ip] == OP_FSUB ==> run_from(code, ip, stack.push(a).push(b), buffer) == run_from(
            code,
            ip + 1,
            stack.push(fsub_bits(a, b)),
            buffer,
        ),
        code[ip] == OP_FADD ==> run_from(code, ip, stack.push(a).push(b), buffer) == run_from(
            code,
            ip + 1,
            stack.push(fadd_bits(a, b)),
            buffer,
        ),
        code[ip] == OP_FMUL ==> run_from(code, ip, stack.push(a).push(b), buffer) == run_from(
            code,
            ip + 1,
            stack.push(fmul_bits(a, b)),
            buffer,
        ),
        code[ip] == OP_FDIV ==> run_from(code, ip, stack.push(a).push(b), buffer) == run_from(
            code,
            ip + 1,
            stack.push(fdiv_bits(a, b)),
            buffer,
        ),
{
    let s = stack.push(a).push(b);
    assert(top_or(s, ZERO_BITS) == b);
    assert(top_or(s, ONE_BITS) == b);
    assert(drop_top(s) =~= stack.push(a));
    assert(top_or(stack.push(a), ZERO_BITS) == a);
    assert(drop_top(stack.push(a)) =~= stack);
}

/// A PUSH_INT or PUSH_FLOAT opcode with fewer than four bytes after it in the
/// program ends execution with the truncated-immediate sentinel, whatever the
/// stack and buffer hold.
pub proof fn lemma_truncated_push(code: Seq<u8>, ip: int, stack: Seq<u32>, buffer: Seq<u32>)
    requires
        0 <= ip < code.len(),
        code[ip] == OP_PUSH_INT || code[ip] == OP_PUSH_FLOAT,
        code.len() < ip + 5,
    ensures
        run_from(code, ip, stack, buffer) == ERR_TRUNCATED_PUSH,
{
}

/// An empty program produces the no-result sentinel.
pub proof fn lemma_empty_program()
    ensures
        run_spec(Seq::empty()) == NO_RESULT,
{
}

/// A byte outside the instruction set halts execution at once with the
/// unknown-opcode sentinel: the result does not depend on any byte after it.
pub proof fn lemma_unknown_opcode(code: Seq<u8>, ip: int, stack: Seq<u32>, buffer: Seq<u32>)
    requires
        0 <= ip < code.len(),
        !recognized(code[ip]),
    ensures
        run_from(code, ip, stack, buffer) == ERR_UNKNOWN_OPCODE,
{
}

/// A program that ends without a RETURN opcode — by running off the end of the
/// buffer — yields the top of stack truncated to an integer, or the no-result
/// sentinel where the stack is empty.
pub proof fn lemma_end_of_buffer(code: Seq<u8>, ip: int, stack: Seq<u32>, buffer: Seq<u32>)
    requires
        ip >= code.len(),
    ensures
        run_from(code, ip, stack, buffer) == end_value(stack),
{
}

} // verus!
