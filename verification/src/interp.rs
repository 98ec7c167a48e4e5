//! The executable interpreter, proved to return exactly what the model in
//! `model` specifies for every byte sequence.

use vstd::prelude::*;
use crate::float_bits::{fadd, fmul, float_to_int, int_to_float, word_to_float, fsub, fdiv};
use crate::model::{
    word_at, top_or, drop_top, fsum, fsum_from, hash_of, hash_from, hash_step, end_value,
    run_from, run_spec, dot_operands, dot_products, stack_after_dot,
    OP_PUSH_INT, OP_PUSH_FLOAT, OP_FSUB, OP_FADD, OP_FMUL, OP_FDIV, OP_VEC_LOAD, OP_VEC_SUM,
    OP_VEC_DOT, OP_HASH32, OP_RETURN_INT, OP_RETURN_FLOAT_BITS, OP_STOP, NO_RESULT,
    ERR_TRUNCATED_PUSH, ERR_MISSING_COUNT, ERR_TRUNCATED_VECTOR, ERR_UNKNOWN_OPCODE, ZERO_BITS,
    ONE_BITS, HASH_OFFSET, HASH_PRIME,
};

verus! {

/// Read the 32-bit word stored little-endian at offsets `i..i + 4`.
fn read_word(code: &[u8], i: usize) -> (w: u32)
    requires
        i + 4 <= code@.len(),
    ensures
        w == word_at(code@, i as int),
{
    let b0 = code[i] as u32;
    let b1 = code[i + 1] as u32;
    let b2 = code[i + 2] as u32;
    let b3 = code[i + 3] as u32;
    b0 + b1 * 0x100 + b2 * 0x1_0000 + b3 * 0x100_0000
}

/// Pop the top of the stack, substituting the given default where it is empty.
fn pop_or(stack: &mut Vec<u32>, d: u32) -> (r: u32)
    ensures
        r == top_or(old(stack)@, d),
        final(stack)@ == drop_top(old(stack)@),
{
    match stack.pop() {
        Some(v) => v,
        None => d,
    }
}

/// Sum the vector buffer by left-folded floating-point addition from zero.
fn vec_sum(buffer: &Vec<u32>) -> (r: u32)
    ensures
        r == fsum(buffer@),
{
    let mut acc: u32 = ZERO_BITS;
    let mut i: usize = 0;
    while i < buffer.len()
        invariant
            i <= buffer@.len(),
            fsum(buffer@) == fsum_from(buffer@, i as int, acc),
        decreases buffer@.len() - i,
    {
        acc = fadd(acc, buffer[i]);
        i = i + 1;
    }
    acc
}

/// The rolling hash of the vector buffer: mix in each element's bit pattern,
/// multiplying with 32-bit wraparound.
fn hash32(buffer: &Vec<u32>) -> (r: u32)
    ensures
        r == hash_of(buffer@),
{
    let mut h: u32 = HASH_OFFSET;
    let mut i: usize = 0;
    while i < buffer.len()
        invariant
            i <= buffer@.len(),
            hash_of(buffer@) == hash_from(buffer@, i as int, h),
        decreases buffer@.len() - i,
    {
        let ghost h0 = h;
        let x = buffer[i];
        h = (h ^ x).wrapping_mul(HASH_PRIME);
        proof {
            assert(h == hash_step(h0, buffer@[i as int]));
        }
        i = i + 1;
    }
    h
}

/// Pop one operand per buffer element (missing operands default to zero),
/// restore their push order, pair them with the buffer, and push the folded
/// sum of element-wise products.
fn vec_dot(stack: &mut Vec<u32>, buffer: &Vec<u32>)
    ensures
        final(stack)@ == stack_after_dot(old(stack)@, buffer@),
{
    let ghost s0 = old(stack)@;
    let n = buffer.len();
    let mut other: Vec<u32> = Vec::new();
    let mut j: usize = 0;
    while j < n
        invariant
            j <= n,
            other@ == Seq::new(
                j as nat,
                |t: int| if t < s0.len() {
                    s0[s0.len() - 1 - t]
                } else {
                    ZERO_BITS
                },
            ),
            stack@ == (if j as int <= s0.len() {
                s0.subrange(0, s0.len() - j)
            } else {
                Seq::<u32>::empty()
            }),
        decreases n - j,
    {
        let v = pop_or(stack, ZERO_BITS);
        other.push(v);
        proof {
            assert(other@ =~= Seq::new(
                (j + 1) as nat,
                |t: int| if t < s0.len() {
                    s0[s0.len() - 1 - t]
                } else {
                    ZERO_BITS
                },
            ));
            if j + 1 <= s0.len() {
                assert(stack@ =~= s0.subrange(0, s0.len() - (j + 1)));
            } else {
                assert(stack@ =~= Seq::<u32>::empty());
            }
        }
        j = j + 1;
    }
    let ghost operands = dot_operands(s0, n as int);
    let ghost prods = dot_products(buffer@, operands);
    let mut acc: u32 = ZERO_BITS;
    let mut i: usize = 0;
    while i < n
        invariant
            i <= n,
            n == buffer@.len(),
            other@.len() == n,
            other@ == Seq::new(
                n as nat,
                |t: int| if t < s0.len() {
                    s0[s0.len() - 1 - t]
                } else {
                    ZERO_BITS
                },
            ),
            operands == dot_operands(s0, n as int),
            prods == dot_products(buffer@, operands),
            fsum(prods) == fsum_from(prods, i as int, acc),
        decreases n - i,
    {
        proof {
            assert(other@[n - 1 - i as int] == operands[i as int]);
        }
        let p = fmul(buffer[i], other[n - 1 - i]);
        acc = fadd(acc, p);
        i = i + 1;
    }
    stack.push(acc);
    proof {
        assert(stack@ =~= stack_after_dot(s0, buffer@));
    }
}

/// Execute one bytecode program: fetch, decode, and execute opcodes from
/// instruction pointer zero with fresh containers, and return the single
/// integer result or the sentinel of the failure class the model assigns.
pub fn run(code: &[u8]) -> (r: i32)
    ensures
        r == run_spec(code@),
{
    let mut ip: usize = 0;
    let mut stack: Vec<u32> = Vec::new();
    let mut buffer: Vec<u32> = Vec::new();
    while ip < code.len()
        invariant_except_break
            ip <= code@.len(),
            run_spec(code@) == run_from(code@, ip as int, stack@, buffer@),
        ensures
            run_spec(code@) == end_value(stack@),
        decreases code@.len() - ip,
    {
        let ghost ip0 = ip as int;
        let ghost s0 = stack@;
        let ghost b0 = buffer@;
        let op = code[ip];
        if op == OP_PUSH_INT {
            if code.len() - ip <= 4 {
                return ERR_TRUNCATED_PUSH;
            }
            let w = read_word(code, ip + 1);
            let v = #[verifier::truncate] (w as i32);
            let bits = int_to_float(v);
            stack.push(bits);
            ip = ip + 5;
        } else if op == OP_PUSH_FLOAT {
            if code.len() - ip <= 4 {
                return ERR_TRUNCATED_PUSH;
            }
            let w = read_word(code, ip + 1);
            stack.push(w);
            ip = ip + 5;
        } else if op == OP_FSUB {
            let b = pop_or(&mut stack, ZERO_BITS);
            let a = pop_or(&mut stack, ZERO_BITS);
            let r = fsub(a, b);
            stack.push(r);
            ip = ip + 1;
        } else if op == OP_FADD {
            let b = pop_or(&mut stack, ZERO_BITS);
            let a = pop_or(&mut stack, ZERO_BITS);
            let r = fadd(a, b);
            stack.push(r);
            ip = ip + 1;
        } else if op == OP_FMUL {
            let b = pop_or(&mut stack, ZERO_BITS);
            let a = pop_or(&mut stack, ZERO_BITS);
            let r = fmul(a, b);
            stack.push(r);
            ip = ip + 1;
        } else if op == OP_FDIV {
            let b = pop_or(&mut stack, ONE_BITS);
            let a = pop_or(&mut stack, ZERO_BITS);
            let r = fdiv(a, b);
            stack.push(r);
            ip = ip + 1;
        } else if op == OP_VEC_LOAD {
            if code.len() - ip <= 1 {
                return ERR_MISSING_COUNT;
            }
            let n = code[ip + 1] as usize;
            if 4 * n > code.len() - (ip + 2) {
                return ERR_TRUNCATED_VECTOR;
            }
            buffer.clear();
            let mut t: usize = 0;
            while t < n
                invariant
                    t <= n,
                    ip as int == ip0,
                    ip + 2 + 4 * n <= code@.len(),
                    code@.len() <= usize::MAX,
                    buffer@ == Seq::new(
                        t as nat,
                        |q: int| word_at(code@, ip0 + 2 + 4 * q),
                    ),
                decreases n - t,
            {
                let w = read_word(code, ip + 2 + 4 * t);
                buffer.push(w);
                proof {
                    assert(buffer@ =~= Seq::new(
                        (t + 1) as nat,
                        |q: int| word_at(code@, ip0 + 2 + 4 * q),
                    ));
                }
                t = t + 1;
            }
            ip = ip + 2 + 4 * n;
        } else if op == OP_VEC_SUM {
            let s = vec_sum(&buffer);
            stack.push(s);
            ip = ip + 1;
        } else if op == OP_VEC_DOT {
            vec_dot(&mut stack, &buffer);
            ip = ip + 1;
        } else if op == OP_HASH32 {
            let h = hash32(&buffer);
            let bits = word_to_float(h);
            stack.push(bits);
            ip = ip + 1;
        } else if op == OP_RETURN_INT {
            let top = if stack.len() == 0 {
                ZERO_BITS
            } else {
                stack[stack.len() - 1]
            };
            return float_to_int(top);
        } else if op == OP_RETURN_FLOAT_BITS {
            let top = if stack.len() == 0 {
                ZERO_BITS
            } else {
                stack[stack.len() - 1]
            };
            return #[verifier::truncate] (top as i32);
        } else if op == OP_STOP {
            break;
        } else {
            return ERR_UNKNOWN_OPCODE;
        }
        proof {
            assert(run_from(code@, ip0, s0, b0) == run_from(code@, ip as int, stack@, buffer@));
        }
    }
    if stack.len() == 0 {
        NO_RESULT
    } else {
        float_to_int(stack[stack.len() - 1])
    }
}

} // verus!
