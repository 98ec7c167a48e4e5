use stackvm::model::{
    OP_FADD, OP_FDIV, OP_FMUL, OP_FSUB, OP_HASH32, OP_PUSH_FLOAT, OP_PUSH_INT, OP_RETURN_FLOAT_BITS,
    OP_RETURN_INT, OP_STOP, OP_VEC_DOT, OP_VEC_LOAD, OP_VEC_SUM,
};
use stackvm::run;

fn push_int(prog: &mut Vec<u8>, v: i32) {
    prog.push(OP_PUSH_INT);
    prog.extend_from_slice(&v.to_le_bytes());
}

fn push_float(prog: &mut Vec<u8>, f: f32) {
    prog.push(OP_PUSH_FLOAT);
    prog.extend_from_slice(&f.to_le_bytes());
}

fn vec_load(prog: &mut Vec<u8>, elems: &[f32]) {
    prog.push(OP_VEC_LOAD);
    prog.push(elems.len() as u8);
    for f in elems {
        prog.extend_from_slice(&f.to_le_bytes());
    }
}

fn fnv_hash(elems: &[f32]) -> u32 {
    let mut h: u32 = 2166136261;
    for f in elems {
        h ^= f.to_bits();
        h = h.wrapping_mul(16777619);
    }
    h
}

#[test]
fn push_int_round_trips_small_integers() {
    for v in [0i32, 1, -1, 5, 42, -1000, 16777216, -16777216] {
        let mut prog = Vec::new();
        push_int(&mut prog, v);
        prog.push(OP_RETURN_INT);
        assert_eq!(run(&prog), v);
    }
}

#[test]
fn push_int_truncates_through_float_widening() {
    // i32::MAX is not exactly representable in binary32: it widens to 2^31,
    // and truncation back saturates to i32::MAX again.
    let mut prog = Vec::new();
    push_int(&mut prog, i32::MAX);
    prog.push(OP_RETURN_INT);
    assert_eq!(run(&prog), (i32::MAX as f32) as i32);
    // 16777217 = 2^24 + 1 rounds to 2^24 when widened.
    let mut prog = Vec::new();
    push_int(&mut prog, 16777217);
    prog.push(OP_RETURN_INT);
    assert_eq!(run(&prog), 16777216);
}

#[test]
fn push_float_returns_exact_bit_pattern() {
    for f in [0.0f32, -0.0, 1.0, 3.5, -2.75, f32::INFINITY, f32::MIN_POSITIVE, 6.02e23] {
        let mut prog = Vec::new();
        push_float(&mut prog, f);
        prog.push(OP_RETURN_FLOAT_BITS);
        assert_eq!(run(&prog), f.to_bits() as i32);
    }
}

#[test]
fn fsub_uses_stack_order() {
    // push 5.0, push 2.0, FSUB computes 5 - 2, not 2 - 5.
    let mut prog = Vec::new();
    push_float(&mut prog, 5.0);
    push_float(&mut prog, 2.0);
    prog.push(OP_FSUB);
    prog.push(OP_RETURN_INT);
    assert_eq!(run(&prog), 3);
}

#[test]
fn fadd_adds() {
    let mut prog = Vec::new();
    push_float(&mut prog, 5.0);
    push_float(&mut prog, 2.0);
    prog.push(OP_FADD);
    prog.push(OP_RETURN_FLOAT_BITS);
    assert_eq!(run(&prog), 7.0f32.to_bits() as i32);
}

#[test]
fn fmul_multiplies() {
    let mut prog = Vec::new();
    push_float(&mut prog, 5.5);
    push_float(&mut prog, 2.0);
    prog.push(OP_FMUL);
    prog.push(OP_RETURN_FLOAT_BITS);
    assert_eq!(run(&prog), 11.0f32.to_bits() as i32);
}

#[test]
fn fdiv_uses_stack_order() {
    // push 10.0, push 4.0, FDIV computes 10 / 4 = 2.5, truncated to 2.
    let mut prog = Vec::new();
    push_float(&mut prog, 10.0);
    push_float(&mut prog, 4.0);
    prog.push(OP_FDIV);
    prog.push(OP_RETURN_INT);
    assert_eq!(run(&prog), 2);
}

#[test]
fn fdiv_by_zero_gives_infinity() {
    let mut prog = Vec::new();
    push_float(&mut prog, 1.0);
    push_float(&mut prog, 0.0);
    prog.push(OP_FDIV);
    prog.push(OP_RETURN_FLOAT_BITS);
    assert_eq!(run(&prog), f32::INFINITY.to_bits() as i32);
}

#[test]
fn binop_underflow_defaults_to_zero() {
    // FADD on an empty stack adds 0.0 + 0.0.
    let prog = vec![OP_FADD, OP_RETURN_FLOAT_BITS];
    assert_eq!(run(&prog), 0);
    // FSUB with one operand computes 0.0 - 9.0.
    let mut prog = Vec::new();
    push_float(&mut prog, 9.0);
    prog.push(OP_FSUB);
    prog.push(OP_RETURN_INT);
    assert_eq!(run(&prog), -9);
}

#[test]
fn fdiv_underflow_divisor_defaults_to_one() {
    // On an empty stack FDIV computes 0.0 / 1.0 = 0.0, not 0.0 / 0.0 = NaN.
    let prog = vec![OP_FDIV, OP_RETURN_FLOAT_BITS];
    assert_eq!(run(&prog), 0);
}

#[test]
fn vec_sum_of_three() {
    let mut prog = Vec::new();
    vec_load(&mut prog, &[1.0, 2.0, 3.0]);
    prog.push(OP_VEC_SUM);
    prog.push(OP_RETURN_INT);
    assert_eq!(run(&prog), 6);
}

#[test]
fn vec_sum_of_empty_buffer_is_zero() {
    let prog = vec![OP_VEC_SUM, OP_RETURN_FLOAT_BITS];
    assert_eq!(run(&prog), 0);
}

#[test]
fn vec_sum_of_largest_load() {
    let elems = [1.0f32; 255];
    let mut prog = Vec::new();
    vec_load(&mut prog, &elems);
    prog.push(OP_VEC_SUM);
    prog.push(OP_RETURN_INT);
    assert_eq!(run(&prog), 255);
}

#[test]
fn vec_dot_restores_push_order() {
    // buffer [2, 3], stack 4 then 5: dot = 2*4 + 3*5 = 23.
    let mut prog = Vec::new();
    vec_load(&mut prog, &[2.0, 3.0]);
    push_float(&mut prog, 4.0);
    push_float(&mut prog, 5.0);
    prog.push(OP_VEC_DOT);
    prog.push(OP_RETURN_INT);
    assert_eq!(run(&prog), 23);
}

#[test]
fn vec_dot_underflow_pads_with_zero() {
    // buffer [2, 3], only 5.0 on the stack: operands restore to [0, 5],
    // so dot = 2*0 + 3*5 = 15.
    let mut prog = Vec::new();
    vec_load(&mut prog, &[2.0, 3.0]);
    push_float(&mut prog, 5.0);
    prog.push(OP_VEC_DOT);
    prog.push(OP_RETURN_INT);
    assert_eq!(run(&prog), 15);
}

#[test]
fn hash_is_deterministic() {
    let mut prog = Vec::new();
    vec_load(&mut prog, &[1.0, 2.0, 3.0]);
    prog.push(OP_HASH32);
    prog.push(OP_RETURN_FLOAT_BITS);
    let first = run(&prog);
    let second = run(&prog);
    assert_eq!(first, second);
    let expected = (fnv_hash(&[1.0, 2.0, 3.0]) as f32).to_bits() as i32;
    assert_eq!(first, expected);
}

#[test]
fn hash_is_order_sensitive() {
    let mut forward = Vec::new();
    vec_load(&mut forward, &[1.0, 2.0, 3.0]);
    forward.push(OP_HASH32);
    forward.push(OP_RETURN_FLOAT_BITS);
    let mut permuted = Vec::new();
    vec_load(&mut permuted, &[3.0, 2.0, 1.0]);
    permuted.push(OP_HASH32);
    permuted.push(OP_RETURN_FLOAT_BITS);
    assert_ne!(run(&forward), run(&permuted));
}

#[test]
fn truncated_push_int_is_an_error() {
    for len in 0..4usize {
        let mut prog = vec![OP_PUSH_INT];
        prog.extend_from_slice(&[7u8, 8, 9][..len]);
        assert_eq!(run(&prog), -1);
    }
}

#[test]
fn truncated_push_float_is_an_error() {
    let prog = vec![OP_PUSH_FLOAT, 0, 0];
    assert_eq!(run(&prog), -1);
}

#[test]
fn vec_load_without_count_is_an_error() {
    let prog = vec![OP_VEC_LOAD];
    assert_eq!(run(&prog), -2);
}

#[test]
fn vec_load_with_truncated_elements_is_an_error() {
    let mut prog = vec![OP_VEC_LOAD, 2];
    prog.extend_from_slice(&1.0f32.to_le_bytes());
    assert_eq!(run(&prog), -3);
}

#[test]
fn empty_program_returns_no_result_sentinel() {
    assert_eq!(run(&[]), -111);
}

#[test]
fn unknown_opcode_halts_immediately() {
    // Without the leading unknown byte this program would return 5; with it,
    // the unknown-opcode sentinel comes back and nothing after it runs.
    let mut tail = Vec::new();
    push_int(&mut tail, 5);
    tail.push(OP_RETURN_INT);
    assert_eq!(run(&tail), 5);
    let mut prog = vec![0x99u8];
    prog.extend_from_slice(&tail);
    assert_eq!(run(&prog), -999);
}

#[test]
fn stop_ends_execution_with_top_of_stack() {
    // STOP falls through to the end-of-program result and skips the rest.
    let mut prog = Vec::new();
    push_float(&mut prog, 9.9);
    prog.push(OP_STOP);
    push_float(&mut prog, 100.0);
    prog.push(OP_RETURN_INT);
    assert_eq!(run(&prog), 9);
}

#[test]
fn stop_with_empty_stack_returns_no_result_sentinel() {
    let prog = vec![OP_STOP];
    assert_eq!(run(&prog), -111);
}

#[test]
fn return_int_with_empty_stack_returns_zero() {
    let prog = vec![OP_RETURN_INT];
    assert_eq!(run(&prog), 0);
}

#[test]
fn return_int_truncates_toward_zero() {
    let mut prog = Vec::new();
    push_float(&mut prog, 7.5);
    prog.push(OP_RETURN_INT);
    assert_eq!(run(&prog), 7);
    let mut prog = Vec::new();
    push_float(&mut prog, -7.5);
    prog.push(OP_RETURN_INT);
    assert_eq!(run(&prog), -7);
}

#[test]
fn return_int_saturates_and_maps_nan_to_zero() {
    let mut prog = Vec::new();
    push_float(&mut prog, 1.0e20);
    prog.push(OP_RETURN_INT);
    assert_eq!(run(&prog), i32::MAX);
    let mut prog = Vec::new();
    push_float(&mut prog, -1.0e20);
    prog.push(OP_RETURN_INT);
    assert_eq!(run(&prog), i32::MIN);
    let mut prog = Vec::new();
    push_float(&mut prog, f32::NAN);
    prog.push(OP_RETURN_INT);
    assert_eq!(run(&prog), 0);
}

#[test]
fn end_of_buffer_returns_top_of_stack() {
    // No explicit return: falling off the end yields the truncated top value.
    let mut prog = Vec::new();
    push_float(&mut prog, 12.75);
    assert_eq!(run(&prog), 12);
}

#[test]
fn vec_load_replaces_previous_buffer() {
    let mut prog = Vec::new();
    vec_load(&mut prog, &[100.0, 200.0]);
    vec_load(&mut prog, &[1.0]);
    prog.push(OP_VEC_SUM);
    prog.push(OP_RETURN_INT);
    assert_eq!(run(&prog), 1);
}

#[test]
fn vec_load_of_zero_elements_clears_buffer() {
    let mut prog = Vec::new();
    vec_load(&mut prog, &[4.0, 5.0]);
    vec_load(&mut prog, &[]);
    prog.push(OP_VEC_SUM);
    prog.push(OP_RETURN_FLOAT_BITS);
    assert_eq!(run(&prog), 0);
}

#[test]
fn scalar_and_vector_opcodes_compose() {
    // ((1 + 2) * 4 - 2) / 5 = 2, built from all four scalar opcodes.
    let mut prog = Vec::new();
    push_int(&mut prog, 1);
    push_int(&mut prog, 2);
    prog.push(OP_FADD);
    push_int(&mut prog, 4);
    prog.push(OP_FMUL);
    push_int(&mut prog, 2);
    prog.push(OP_FSUB);
    push_int(&mut prog, 5);
    prog.push(OP_FDIV);
    prog.push(OP_RETURN_INT);
    assert_eq!(run(&prog), 2);
}
