//! The mathematical model of the interpreter: opcodes, error sentinels, and a
//! recursive specification of the fetch-decode-execute loop over a byte
//! sequence. The executable interpreter in `interp` is proved to return
//! exactly `run_spec` of its input.

use vstd::prelude::*;
use crate::float_bits::{
    fadd_bits, fsub_bits, fmul_bits, fdiv_bits, int_to_float_bits, float_bits_to_int,
    word_to_float_bits,
};

verus! {

/// Decode and widen a little-endian signed 32-bit integer, push it.
pub const OP_PUSH_INT: u8 = 0x01;
/// Push a little-endian IEEE-754 32-bit float.
pub const OP_PUSH_FLOAT: u8 = 0x02;
/// Pop b, pop a, push a - b.
pub const OP_FSUB: u8 = 0x05;
/// Pop b, pop a, push a + b.
pub const OP_FADD: u8 = 0x10;
/// Pop b, pop a, push a * b.
pub const OP_FMUL: u8 = 0x11;
/// Pop b (default one), pop a, push a / b.
pub const OP_FDIV: u8 = 0x12;
/// Clear the vector buffer and load N little-endian floats from the program.
pub const OP_VEC_LOAD: u8 = 0x20;
/// Push the sum of the vector buffer.
pub const OP_VEC_SUM: u8 = 0x21;
/// Pop one operand per buffer element, restore push order, push the dot product.
pub const OP_VEC_DOT: u8 = 0x22;
/// Push the rolling hash of the vector buffer, converted to a float.
pub const OP_HASH32: u8 = 0x30;
/// Return the top of stack truncated to a signed integer.
pub const OP_RETURN_INT: u8 = 0xF0;
/// Return the raw bit pattern of the top of stack as a signed integer.
pub const OP_RETURN_FLOAT_BITS: u8 = 0xF1;
/// Leave the dispatch loop; the end-of-program result follows.
pub const OP_STOP: u8 = 0x40;

/// Result when the program ends with an empty operand stack.
pub const NO_RESULT: i32 = -111;
/// Result when a PUSH_INT or PUSH_FLOAT immediate runs past the end of the program.
pub const ERR_TRUNCATED_PUSH: i32 = -1;
/// Result when VEC_LOAD has no count byte.
pub const ERR_MISSING_COUNT: i32 = -2;
/// Result when VEC_LOAD's element bytes run past the end of the program.
pub const ERR_TRUNCATED_VECTOR: i32 = -3;
/// Result for an opcode outside the instruction set.
pub const ERR_UNKNOWN_OPCODE: i32 = -999;

/// Bit pattern of floating-point zero, the default operand on stack underflow.
pub const ZERO_BITS: u32 = 0;
/// Bit pattern of floating-point one, the default divisor on stack underflow.
pub const ONE_BITS: u32 = 0x3F80_0000;

/// Initial value of the rolling hash.
pub const HASH_OFFSET: u32 = 2166136261;
/// Multiplier of the rolling hash.
pub const HASH_PRIME: u32 = 16777619;

/// The 32-bit word stored little-endian at offsets `i..i + 4` of the program.
pub open spec fn word_at(code: Seq<u8>, i: int) -> u32 {
    (code[i] + code[i + 1] * 0x100 + code[i + 2] * 0x1_0000 + code[i + 3] * 0x100_0000) as u32
}

/// The four bytes of a 32-bit word in little-endian order.
pub open spec fn le_bytes(w: u32) -> Seq<u8> {
    seq![
        (w & 0xFF) as u8,
        ((w >> 8) & 0xFF) as u8,
        ((w >> 16) & 0xFF) as u8,
        ((w >> 24) & 0xFF) as u8,
    ]
}

/// The top of the stack, or the given default where the stack is empty.
pub open spec fn top_or(stack: Seq<u32>, d: u32) -> u32 {
    if stack.len() == 0 {
        d
    } else {
        stack.last()
    }
}

/// The stack with its top removed; an empty stack stays empty.
pub open spec fn drop_top(stack: Seq<u32>) -> Seq<u32> {
    if stack.len() == 0 {
        stack
    } else {
        stack.drop_last()
    }
}

/// Left fold of floating-point addition over `xs[i..]`, starting from `acc`.
pub open spec fn fsum_from(xs: Seq<u32>, i: int, acc: u32) -> u32
    decreases xs.len() - i,
{
    if i < 0 || i >= xs.len() {
        acc
    } else {
        fsum_from(xs, i + 1, fadd_bits(acc, xs[i]))
    }
}

/// The sum of a vector of floats, folded left from zero, as VEC_SUM computes it.
pub open spec fn fsum(xs: Seq<u32>) -> u32 {
    fsum_from(xs, 0, ZERO_BITS)
}

/// One step of the rolling hash: mix in one element's bit pattern, then
/// multiply with 32-bit wraparound.
pub open spec fn hash_step(h: u32, x: u32) -> u32 {
    (((h ^ x) * HASH_PRIME) % 0x1_0000_0000) as u32
}

/// The rolling hash folded over `xs[i..]`, starting from `h`.
pub open spec fn hash_from(xs: Seq<u32>, i: int, h: u32) -> u32
    decreases xs.len() - i,
{
    if i < 0 || i >= xs.len() {
        h
    } else {
        hash_from(xs, i + 1, hash_step(h, xs[i]))
    }
}

/// The rolling hash of the whole vector buffer, as HASH32 computes it.
pub open spec fn hash_of(xs: Seq<u32>) -> u32 {
    hash_from(xs, 0, HASH_OFFSET)
}

/// How many operands VEC_DOT actually pops from a stack of this length.
pub open spec fn dot_popped(stack: Seq<u32>, n: int) -> int {
    if n <= stack.len() {
        n
    } else {
        stack.len() as int
    }
}

/// The operands VEC_DOT pairs with the buffer: the top `n` stack values
/// restored to push order, padded in front with zeros where the stack held
/// fewer than `n`.
pub open spec fn dot_operands(stack: Seq<u32>, n: int) -> Seq<u32> {
    let k = dot_popped(stack, n);
    Seq::new(
        n as nat,
        |i: int|
            if i < n - k {
                ZERO_BITS
            } else {
                stack[stack.len() - n + i]
            },
    )
}

/// The element-wise products of the buffer with the restored operands.
pub open spec fn dot_products(buffer: Seq<u32>, operands: Seq<u32>) -> Seq<u32> {
    Seq::new(buffer.len(), |i: int| fmul_bits(buffer[i], operands[i]))
}

/// The stack VEC_DOT leaves: one operand popped per buffer element (missing
/// ones default to zero), and the folded sum of element-wise products pushed.
pub open spec fn stack_after_dot(stack: Seq<u32>, buffer: Seq<u32>) -> Seq<u32> {
    let n = buffer.len() as int;
    let k = dot_popped(stack, n);
    stack.subrange(0, stack.len() - k).push(
        fsum(dot_products(buffer, dot_operands(stack, n))),
    )
}

/// The result when the dispatch loop leaves the program (end of buffer or
/// STOP): the top of stack truncated to an integer, or the no-result sentinel
/// where the stack is empty.
pub open spec fn end_value(stack: Seq<u32>) -> i32 {
    if stack.len() == 0 {
        NO_RESULT
    } else {
        float_bits_to_int(stack.last())
    }
}

/// Whether a byte is an opcode of the instruction set.
pub open spec fn recognized(op: u8) -> bool {
    ||| op == OP_PUSH_INT
    ||| op == OP_PUSH_FLOAT
    ||| op == OP_FSUB
    ||| op == OP_FADD
    ||| op == OP_FMUL
    ||| op == OP_FDIV
    ||| op == OP_VEC_LOAD
    ||| op == OP_VEC_SUM
    ||| op == OP_VEC_DOT
    ||| op == OP_HASH32
    ||| op == OP_RETURN_INT
    ||| op == OP_RETURN_FLOAT_BITS
    ||| op == OP_STOP
}

/// The interpreter from instruction pointer `ip` with the given operand stack
/// and vector buffer: one recursive unfolding per executed instruction.
pub open spec fn run_from(code: Seq<u8>, ip: int, stack: Seq<u32>, buffer: Seq<u32>) -> i32
    decreases code.len() - ip,
{
    if !(0 <= ip < code.len()) {
        end_value(stack)
    } else {
        let op = code[ip];
        if op == OP_PUSH_INT {
            if ip + 4 >= code.len() {
                ERR_TRUNCATED_PUSH
            } else {
                run_from(
                    code,
                    ip + 5,
                    stack.push(int_to_float_bits(word_at(code, ip + 1) as i32)),
                    buffer,
                )
            }
        } else if op == OP_PUSH_FLOAT {
            if ip + 4 >= code.len() {
                ERR_TRUNCATED_PUSH
            } else {
                run_from(code, ip + 5, stack.push(word_at(code, ip + 1)), buffer)
            }
        } else if op == OP_FSUB {
            let b = top_or(stack, ZERO_BITS);
            let s1 = drop_top(stack);
            let a = top_or(s1, ZERO_BITS);
            let s2 = drop_top(s1);
            run_from(code, ip + 1, s2.push(fsub_bits(a, b)), buffer)
        } else if op == OP_FADD {
            let b = top_or(stack, ZERO_BITS);
            let s1 = drop_top(stack);
            let a = top_or(s1, ZERO_BITS);
            let s2 = drop_top(s1);
            run_from(code, ip + 1, s2.push(fadd_bits(a, b)), buffer)
        } else if op == OP_FMUL {
            let b = top_or(stack, ZERO_BITS);
            let s1 = drop_top(stack);
            let a = top_or(s1, ZERO_BITS);
            let s2 = drop_top(s1);
            run_from(code, ip + 1, s2.push(fmul_bits(a, b)), buffer)
        } else if op == OP_FDIV {
            let b = top_or(stack, ONE_BITS);
            let s1 = drop_top(stack);
            let a = top_or(s1, ZERO_BITS);
            let s2 = drop_top(s1);
            run_from(code, ip + 1, s2.push(fdiv_bits(a, b)), buffer)
        } else if op == OP_VEC_LOAD {
            if ip + 1 >= code.len() {
                ERR_MISSING_COUNT
            } else {
                let n = code[ip + 1] as int;
                if ip + 2 + 4 * n > code.len() {
                    ERR_TRUNCATED_VECTOR
                } else {
                    let loaded = Seq::new(n as nat, |i: int| word_at(code, ip + 2 + 4 * i));
                    run_from(code, ip + 2 + 4 * n, stack, loaded)
                }
            }
        } else if op == OP_VEC_SUM {
            run_from(code, ip + 1, stack.push(fsum(buffer)), buffer)
        } else if op == OP_VEC_DOT {
            run_from(code, ip + 1, stack_after_dot(stack, buffer), buffer)
        } else if op == OP_HASH32 {
            run_from(code, ip + 1, stack.push(word_to_float_bits(hash_of(buffer))), buffer)
        } else if op == OP_RETURN_INT {
            float_bits_to_int(top_or(stack, ZERO_BITS))
        } else if op == OP_RETURN_FLOAT_BITS {
            top_or(stack, ZERO_BITS) as i32
        } else if op == OP_STOP {
            end_value(stack)
        } else {
            ERR_UNKNOWN_OPCODE
        }
    }
}

/// The result of executing a bytecode program: the interpreter is this
/// function, started with instruction pointer zero and empty containers.
pub open spec fn run_spec(code: Seq<u8>) -> i32 {
    run_from(code, 0, Seq::empty(), Seq::empty())
}

} // verus!
