//! Laws of the machine, proved once and for all: multi-step facts about the
//! step function, preservation of the state invariant, and a pixel-for-pixel
//! characterization of the sprite-drawing protocol.

use vstd::prelude::*;
use vstd::arithmetic::div_mod::{
    lemma_add_mod_noop, lemma_add_mod_noop_right, lemma_fundamental_div_mod,
    lemma_fundamental_div_mod_converse_div, lemma_fundamental_div_mod_converse_mod,
    lemma_mod_sub_multiples_vanish, lemma_small_mod,
};
use crate::bits::spec_is_set_n;
use crate::semantics::{
    draw_row_bits, draw_rows, load_regs, opcode_at, pc_add, spec_step, store_regs, wf, CpuView,
};

verus! {

/// From `val == q * d + r` with `r` in range, the quotient and remainder of
/// `val` by `d` are exactly `q` and `r`.
proof fn lemma_div_mod_split(val: int, d: int, q: int, r: int)
    requires
        d > 0,
        0 <= r < d,
        val == q * d + r,
    ensures
        val / d == q,
        val % d == r,
{
    lemma_fundamental_div_mod_converse_div(val, d, q, r);
    lemma_fundamental_div_mod_converse_mod(val, d, q, r);
}

/// For every register `x` and byte `kk`: a `6xkk` (load immediate) followed
/// by `7x01` (add immediate one) never errors and leaves `Vx` holding
/// `(kk + 1) mod 256`, whatever bytes the random source supplies.
pub proof fn lemma_load_then_add_one(s: CpuView, x: u8, kk: u8, rb1: u8, rb2: u8)
    requires
        wf(s),
        s.awaiting_key is None,
        x < 16,
        s.memory[s.pc as int] == 0x60 + x,
        s.memory[(s.pc + 1) % 4096] == kk,
        s.memory[(s.pc + 2) % 4096] == 0x70 + x,
        s.memory[(s.pc + 3) % 4096] == 1,
    ensures
        spec_step(s, rb1).result is Ok,
        spec_step(spec_step(s, rb1).post, rb2).result is Ok,
        spec_step(spec_step(s, rb1).post, rb2).post.v[x as int] == (kk + 1) % 256,
{
    let op1 = opcode_at(s);
    assert(op1 == (0x60 + x) * 256 + kk);
    lemma_div_mod_split(op1 as int, 4096, 6, x * 256 + kk);
    lemma_div_mod_split(op1 as int, 256, 0x60 + x, kk as int);
    lemma_div_mod_split(0x60 + x, 16, 6, x as int);
    let s1 = spec_step(s, rb1).post;
    assert(s1.pc == pc_add(s.pc, 2));
    lemma_add_mod_noop_right(1, s.pc + 2, 4096);
    assert((s1.pc + 1) % 4096 == (s.pc + 3) % 4096);
    let op2 = opcode_at(s1);
    assert(op2 == (0x70 + x) * 256 + 1);
    lemma_div_mod_split(op2 as int, 4096, 7, x * 256 + 1);
    lemma_div_mod_split(op2 as int, 256, 0x70 + x, 1);
    lemma_div_mod_split(0x70 + x, 16, 7, x as int);
    assert(s1.v[x as int] == kk);
}

/// Call/return round trip: from any state, a `2nnn` call whose target holds
/// `00EE` never errors, restores the program counter to the address after
/// the call, and leaves the stack pointer at its pre-call depth, whatever
/// bytes the random source supplies.
pub proof fn lemma_call_ret_round_trip(s: CpuView, nnn: u16, rb1: u8, rb2: u8)
    requires
        wf(s),
        s.awaiting_key is None,
        s.sp < 15,
        nnn < 4096,
        s.memory[s.pc as int] == 0x20 + nnn / 256,
        s.memory[(s.pc + 1) % 4096] == nnn % 256,
        s.memory[nnn as int] == 0x00,
        s.memory[(nnn + 1) % 4096] == 0xEE,
    ensures
        spec_step(s, rb1).result is Ok,
        spec_step(spec_step(s, rb1).post, rb2).result is Ok,
        spec_step(spec_step(s, rb1).post, rb2).post.pc == pc_add(s.pc, 2),
        spec_step(spec_step(s, rb1).post, rb2).post.sp == s.sp,
{
    let op1 = opcode_at(s);
    lemma_fundamental_div_mod(nnn as int, 256);
    assert(op1 == 0x2000 + nnn);
    lemma_div_mod_split(op1 as int, 4096, 2, nnn as int);
    let s1 = spec_step(s, rb1).post;
    assert(s1.pc == nnn);
    assert(s1.sp == s.sp + 1);
    assert(s1.stack[s1.sp as int] == pc_add(s.pc, 2));
    let op2 = opcode_at(s1);
    assert(op2 == 0xEE);
}

/// A failing step changes nothing: whenever one step reports an error (an
/// invalid opcode or a stack fault), the state it leaves behind is exactly
/// the state it was given.
pub proof fn lemma_error_leaves_state_unchanged(s: CpuView, rb: u8)
    ensures
        spec_step(s, rb).result is Err ==> spec_step(s, rb).post == s,
{
}

/// Drawing the bits of one sprite row never changes the framebuffer's size.
proof fn lemma_draw_row_bits_len(fb: Seq<bool>, byte: u8, vx: int, py: int, b: int)
    requires
        fb.len() == 2048,
        0 <= vx,
        0 <= py < 32,
    ensures
        draw_row_bits(fb, byte, vx, py, b).0.len() == fb.len(),
    decreases b,
{
    if b > 0 {
        lemma_draw_row_bits_len(fb, byte, vx, py, b - 1);
    }
}

/// Drawing a sprite never changes the framebuffer's size.
proof fn lemma_draw_rows_len(fb: Seq<bool>, mem: Seq<u8>, i: u16, vx: u8, vy: u8, r: int)
    requires
        fb.len() == 2048,
    ensures
        draw_rows(fb, mem, i, vx, vy, r).0.len() == fb.len(),
    decreases r,
{
    if r > 0 {
        lemma_draw_rows_len(fb, mem, i, vx, vy, r - 1);
        let prev = draw_rows(fb, mem, i, vx, vy, r - 1);
        lemma_draw_row_bits_len(
            prev.0,
            mem[(i + (r - 1)) % 4096],
            vx as int,
            (vy + (r - 1)) % 32,
            8,
        );
    }
}

/// A register block store never changes the size of memory.
proof fn lemma_store_regs_len(mem: Seq<u8>, v: Seq<u8>, i: u16, k: int)
    requires
        mem.len() == 4096,
    ensures
        store_regs(mem, v, i, k).len() == mem.len(),
    decreases k + 1,
{
    if k >= 0 {
        lemma_store_regs_len(mem, v, i, k - 1);
    }
}

/// A register block load never changes the size of the register file.
proof fn lemma_load_regs_len(v: Seq<u8>, mem: Seq<u8>, i: u16, k: int)
    requires
        v.len() == 16,
        k < 16,
    ensures
        load_regs(v, mem, i, k).len() == v.len(),
    decreases k + 1,
{
    if k >= 0 {
        lemma_load_regs_len(v, mem, i, k - 1);
    }
}

/// The machine invariant is preserved by every step, successful or not:
/// from a well-formed state, the step function always yields a well-formed
/// state.
#[verifier::rlimit(100)]
#[verifier::spinoff_prover]
pub proof fn lemma_step_preserves_wf(s: CpuView, rb: u8)
    requires
        wf(s),
    ensures
        wf(spec_step(s, rb).post),
{
    let op = opcode_at(s);
    lemma_draw_rows_len(s.fb, s.memory, s.i, s.v[(op as int / 0x100) % 16], s.v[(op as int / 0x10) % 16], op as int % 16);
    lemma_store_regs_len(s.memory, s.v, s.i, (op as int / 0x100) % 16);
    lemma_load_regs_len(s.v, s.memory, s.i, (op as int / 0x100) % 16);
}

/// A sum under one wrap of the modulus, written without the modulo.
proof fn lemma_wrap64(a: int)
    requires
        0 <= a < 128,
    ensures
        a % 64 == if a < 64 { a } else { a - 64 },
{
    if a < 64 {
        lemma_small_mod(a as nat, 64);
    } else {
        lemma_mod_sub_multiples_vanish(a, 64);
        lemma_small_mod((a - 64) as nat, 64);
    }
}

/// The first `k` bits of one sprite row, characterized pixel for pixel:
/// each drawn bit XOR-toggles exactly its own wrapped column of row `py`,
/// every other pixel keeps its state, and a collision is reported exactly
/// when some set bit lands on a lit pixel.
proof fn lemma_draw_row_prefix(fb: Seq<bool>, byte: u8, vx: int, py: int, k: int)
    requires
        fb.len() == 2048,
        0 <= vx,
        0 <= py < 32,
        0 <= k <= 8,
    ensures
        forall|b: int|
            0 <= b < k ==> #[trigger] draw_row_bits(fb, byte, vx, py, k).0[py * 64 + (vx + b)
                % 64] == (fb[py * 64 + (vx + b) % 64] != spec_is_set_n(byte, (7 - b) as u8)),
        forall|p: int|
            0 <= p < 2048 && (forall|b: int| 0 <= b < k ==> p != py * 64 + #[trigger] ((vx
                + b) % 64))
                ==> #[trigger] draw_row_bits(fb, byte, vx, py, k).0[p] == fb[p],
        draw_row_bits(fb, byte, vx, py, k).1 <==> (exists|b: int|
            0 <= b < k && #[trigger] spec_is_set_n(byte, (7 - b) as u8) && fb[py * 64 + (vx
                + b) % 64]),
    decreases k,
{
    assert forall|b: int| 0 <= b < 8 implies #[trigger] ((vx + b) % 64) == (if vx % 64 + b < 64 {
        vx % 64 + b
    } else {
        vx % 64 + b - 64
    }) by {
        lemma_small_mod(b as nat, 64);
        lemma_add_mod_noop(vx, b, 64);
        lemma_wrap64(vx % 64 + b);
    }
    if k > 0 {
        lemma_draw_row_prefix(fb, byte, vx, py, k - 1);
        lemma_draw_row_bits_len(fb, byte, vx, py, k - 1);
        let prev = draw_row_bits(fb, byte, vx, py, k - 1);
        let cur = draw_row_bits(fb, byte, vx, py, k);
        let px = (vx + (k - 1)) % 64;
        let t = py * 64 + px;
        assert(0 <= px < 64);
        assert forall|b: int| 0 <= b < k - 1 implies t != py * 64 + #[trigger] ((vx + b)
            % 64) by {}
        assert(prev.0[t] == fb[t]);
        if spec_is_set_n(byte, (7 - (k - 1)) as u8) {
            assert(cur.0 == prev.0.update(t, !prev.0[t]));
            assert(cur.1 == (prev.1 || prev.0[t]));
            if fb[t] {
                assert(0 <= k - 1 < k && spec_is_set_n(byte, (7 - (k - 1)) as u8) && fb[py * 64
                    + (vx + (k - 1)) % 64]);
            }
        } else {
            assert(cur == prev);
        }
    }
}

/// One full sprite row drawn at `(vx, py)`: the eight bits, most significant
/// first, XOR-toggle exactly the pixels `(vx + bit) mod 64` of row `py`,
/// every other pixel keeps its state, and the collision report is true
/// exactly when some set bit unlights a lit pixel.
pub proof fn lemma_draw_row_pixels(fb: Seq<bool>, byte: u8, vx: int, py: int)
    requires
        fb.len() == 2048,
        0 <= vx,
        0 <= py < 32,
    ensures
        forall|b: int|
            0 <= b < 8 ==> #[trigger] draw_row_bits(fb, byte, vx, py, 8).0[py * 64 + (vx + b)
                % 64] == (fb[py * 64 + (vx + b) % 64] != spec_is_set_n(byte, (7 - b) as u8)),
        forall|p: int|
            0 <= p < 2048 && (forall|b: int| 0 <= b < 8 ==> p != py * 64 + #[trigger] ((vx
                + b) % 64))
                ==> #[trigger] draw_row_bits(fb, byte, vx, py, 8).0[p] == fb[p],
        draw_row_bits(fb, byte, vx, py, 8).1 <==> (exists|b: int|
            0 <= b < 8 && #[trigger] spec_is_set_n(byte, (7 - b) as u8) && fb[py * 64 + (vx
                + b) % 64]),
{
    lemma_draw_row_prefix(fb, byte, vx, py, 8);
}

/// A sum under one wrap of 32, written without the modulo.
proof fn lemma_wrap32(a: int)
    requires
        0 <= a < 64,
    ensures
        a % 32 == if a < 32 { a } else { a - 32 },
{
    if a < 32 {
        lemma_small_mod(a as nat, 32);
    } else {
        lemma_mod_sub_multiples_vanish(a, 32);
        lemma_small_mod((a - 32) as nat, 32);
    }
}

/// The first `r` rows of a sprite, characterized pixel for pixel over the
/// original framebuffer: row `q` toggles exactly the set bits of its memory
/// byte at screen row `(vy + q) mod 32`, columns wrapping modulo 64; every
/// pixel outside those targets keeps its state; and the aggregate collision
/// is reported exactly when some set bit lands on an originally lit pixel.
proof fn lemma_draw_rows_prefix(fb: Seq<bool>, mem: Seq<u8>, i: u16, vx: u8, vy: u8, r: int)
    requires
        fb.len() == 2048,
        mem.len() == 4096,
        0 <= r <= 15,
    ensures
        forall|q: int, b: int|
            0 <= q < r && 0 <= b < 8 ==> #[trigger] draw_rows(fb, mem, i, vx, vy, r).0[((vy + q)
                % 32) * 64 + (vx + b) % 64] == (fb[((vy + q) % 32) * 64 + (vx + b) % 64]
                != spec_is_set_n(mem[(i + q) % 4096], (7 - b) as u8)),
        forall|p: int|
            0 <= p < 2048 && (forall|q: int, b: int|
                #![trigger (vy + q) % 32, (vx + b) % 64]
                0 <= q < r && 0 <= b < 8 ==> p != ((vy + q) % 32) * 64 + (vx + b) % 64)
                ==> #[trigger] draw_rows(fb, mem, i, vx, vy, r).0[p] == fb[p],
        draw_rows(fb, mem, i, vx, vy, r).1 <==> (exists|q: int, b: int|
            0 <= q < r && 0 <= b < 8 && #[trigger] spec_is_set_n(
                mem[(i + q) % 4096],
                (7 - b) as u8,
            ) && fb[((vy + q) % 32) * 64 + (vx + b) % 64]),
    decreases r,
{
    assert forall|q: int| 0 <= q < 15 implies #[trigger] ((vy + q) % 32) == (if vy % 32 + q
        < 32 {
        vy % 32 + q
    } else {
        vy % 32 + q - 32
    }) by {
        lemma_small_mod(q as nat, 32);
        lemma_add_mod_noop(vy as int, q, 32);
        lemma_wrap32(vy % 32 + q);
    }
    if r > 0 {
        lemma_draw_rows_prefix(fb, mem, i, vx, vy, r - 1);
        lemma_draw_rows_len(fb, mem, i, vx, vy, r - 1);
        let prev = draw_rows(fb, mem, i, vx, vy, r - 1);
        let byte = mem[(i + (r - 1)) % 4096];
        let py = (vy + (r - 1)) % 32;
        let row = draw_row_bits(prev.0, byte, vx as int, py, 8);
        lemma_draw_row_pixels(prev.0, byte, vx as int, py);
        lemma_draw_row_bits_len(prev.0, byte, vx as int, py, 8);
        // The new row is no earlier row, so its eight targets are untouched
        // so far and every earlier target sits on another screen row.
        assert forall|q: int| 0 <= q < r - 1 implies py != #[trigger] ((vy + q) % 32) by {}
        assert forall|b: int| 0 <= b < 8 implies prev.0[py * 64 + #[trigger] ((vx + b)
            % 64)] == fb[py * 64 + (vx + b) % 64] by {
            assert forall|q: int, bq: int|
                #![trigger (vy + q) % 32, (vx + bq) % 64]
                0 <= q < r - 1 && 0 <= bq < 8 implies py * 64 + (vx + b) % 64 != ((vy + q)
                % 32) * 64 + (vx + bq) % 64 by {
                assert(py != (vy + q) % 32);
            }
        }
        // Collision, forward and backward.
        if row.1 {
            let wb = choose|b: int|
                0 <= b < 8 && #[trigger] spec_is_set_n(byte, (7 - b) as u8) && prev.0[py * 64
                    + (vx + b) % 64];
            assert(spec_is_set_n(mem[(i + (r - 1)) % 4096], (7 - wb) as u8) && fb[((vy + (r
                - 1)) % 32) * 64 + (vx + wb) % 64]);
        }
        if draw_rows(fb, mem, i, vx, vy, r).1 {
        } else {
            assert forall|q: int, b: int|
                0 <= q < r && 0 <= b < 8 && #[trigger] spec_is_set_n(
                    mem[(i + q) % 4096],
                    (7 - b) as u8,
                ) implies !fb[((vy + q) % 32) * 64 + (vx + b) % 64] by {
                if q < r - 1 {
                } else {
                    assert(!prev.0[py * 64 + (vx + b) % 64]);
                }
            }
        }
    }
}

/// A whole sprite drawn, characterized pixel for pixel: each set bit of row
/// `q` XOR-toggles exactly the pixel at screen row `(vy + q) mod 32` and
/// column `(vx + bit) mod 64`, every other pixel keeps its state, and the
/// collision flag aggregates over the whole sprite: it is set exactly when
/// some set bit lands on a pixel that was lit before the draw.
pub proof fn lemma_draw_sprite_pixels(fb: Seq<bool>, mem: Seq<u8>, i: u16, vx: u8, vy: u8, n: int)
    requires
        fb.len() == 2048,
        mem.len() == 4096,
        0 <= n <= 15,
    ensures
        forall|q: int, b: int|
            0 <= q < n && 0 <= b < 8 ==> #[trigger] draw_rows(fb, mem, i, vx, vy, n).0[((vy + q)
                % 32) * 64 + (vx + b) % 64] == (fb[((vy + q) % 32) * 64 + (vx + b) % 64]
                != spec_is_set_n(mem[(i + q) % 4096], (7 - b) as u8)),
        forall|p: int|
            0 <= p < 2048 && (forall|q: int, b: int|
                #![trigger (vy + q) % 32, (vx + b) % 64]
                0 <= q < n && 0 <= b < 8 ==> p != ((vy + q) % 32) * 64 + (vx + b) % 64)
                ==> #[trigger] draw_rows(fb, mem, i, vx, vy, n).0[p] == fb[p],
        draw_rows(fb, mem, i, vx, vy, n).1 <==> (exists|q: int, b: int|
            0 <= q < n && 0 <= b < 8 && #[trigger] spec_is_set_n(
                mem[(i + q) % 4096],
                (7 - b) as u8,
            ) && fb[((vy + q) % 32) * 64 + (vx + b) % 64]),
{
    lemma_draw_rows_prefix(fb, mem, i, vx, vy, n);
}

} // verus!
