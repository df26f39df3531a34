//! The mathematical model of the machine: an abstract state, and a total
//! description of what one `execute_opcode` call does to it.
//!
//! `spec_step` is the authority the executable engine is proved against.
//! All memory addressing is 12-bit: an address or program counter that walks
//! past 0xFFF wraps modulo 4096, a deliberate, documented policy for the
//! boundary the instruction set itself leaves open.

use vstd::prelude::*;
use crate::Error;
use crate::bits::spec_is_set_n;
use crate::decode::{addr_nnn, byte_kk, group, nib_n, nib_x, nib_y};
use crate::display::blank_fb;

verus! {

/// The abstract machine state: index register, program counter, 4096 memory
/// cells, 16 registers, 16 return-address slots with a stack pointer, the two
/// timers, 16 key-down states, the pending key-wait, and the pixel grid.
#[verifier::ext_equal]
pub ghost struct CpuView {
    pub i: u16,
    pub pc: u16,
    pub memory: Seq<u8>,
    pub v: Seq<u8>,
    pub stack: Seq<u16>,
    pub sp: u8,
    pub dt: u8,
    pub st: u8,
    pub keys: Seq<bool>,
    pub awaiting_key: Option<u8>,
    pub fb: Seq<bool>,
}

/// What one step leaves behind: the state after the step and its result.
#[verifier::ext_equal]
pub ghost struct Outcome {
    pub post: CpuView,
    pub result: Result<(), Error>,
}

/// A step that succeeds, leaving the machine in `post`.
pub open spec fn step_ok(post: CpuView) -> Outcome {
    Outcome { post, result: Ok(()) }
}

/// A step that fails with `e`, leaving the machine untouched.
pub open spec fn step_err(s: CpuView, e: Error) -> Outcome {
    Outcome { post: s, result: Err(e) }
}

/// Well-formedness of a machine state: the fixed sizes of every component,
/// 12-bit counters, a stack pointer within the 16 slots, return addresses
/// inside memory, and a key-wait aimed at a real register.
pub open spec fn wf(s: CpuView) -> bool {
    &&& s.memory.len() == 4096
    &&& s.v.len() == 16
    &&& s.stack.len() == 16
    &&& s.keys.len() == 16
    &&& s.fb.len() == 2048
    &&& s.pc < 4096
    &&& s.i < 4096
    &&& s.sp < 16
    &&& forall|j: int| 0 <= j < 16 ==> s.stack[j] < 4096
    &&& s.awaiting_key matches Some(x) ==> x < 16
}

/// The built-in hex-digit sprites: sixteen glyphs of five rows each, the
/// fixed 80-byte table that construction places at memory 0x000-0x04F and
/// that `Fx29` points the index register into.
pub open spec fn spec_font() -> Seq<u8> {
    seq![
        0xF0u8, 0x90, 0x90, 0x90, 0xF0,
        0x20, 0x60, 0x20, 0x20, 0x70,
        0xF0, 0x10, 0xF0, 0x80, 0xF0,
        0xF0, 0x10, 0xF0, 0x10, 0xF0,
        0x90, 0x90, 0xF0, 0x10, 0x10,
        0xF0, 0x80, 0xF0, 0x10, 0xF0,
        0xF0, 0x80, 0xF0, 0x90, 0xF0,
        0xF0, 0x10, 0x20, 0x40, 0x40,
        0xF0, 0x90, 0xF0, 0x90, 0xF0,
        0xF0, 0x90, 0xF0, 0x10, 0xF0,
        0xF0, 0x90, 0xF0, 0x90, 0x90,
        0xE0, 0x90, 0xE0, 0x90, 0xE0,
        0xF0, 0x80, 0x80, 0x80, 0xF0,
        0xE0, 0x90, 0x90, 0x90, 0xE0,
        0xF0, 0x80, 0xF0, 0x80, 0xF0,
        0xF0, 0x80, 0xF0, 0x80, 0x80,
    ]
}

/// The state a freshly constructed machine is in: counters and registers
/// zeroed, the program counter at the 0x200 program origin, the font table
/// in low memory, everything else dark and silent.
pub open spec fn initial_cpu() -> CpuView {
    CpuView {
        i: 0,
        pc: 0x200,
        memory: spec_font() + Seq::new(4016, |j: int| 0u8),
        v: Seq::new(16, |j: int| 0u8),
        stack: Seq::new(16, |j: int| 0u16),
        sp: 0,
        dt: 0,
        st: 0,
        keys: Seq::new(16, |j: int| false),
        awaiting_key: None,
        fb: blank_fb(),
    }
}

/// The program counter moved forward by `k` bytes, wrapping modulo 4096.
pub open spec fn pc_add(pc: u16, k: int) -> u16 {
    ((pc + k) % 4096) as u16
}

/// An addition truncated to a byte.
pub open spec fn wrap8(v: int) -> u8 {
    (v % 256) as u8
}

/// The 16-bit instruction word at the program counter: the byte at `pc` is
/// the high byte, the byte at `pc + 1` (wrapped) the low byte.
pub open spec fn opcode_at(s: CpuView) -> u16 {
    (s.memory[s.pc as int] * 256 + s.memory[(s.pc + 1) % 4096]) as u16
}

/// The lowest-numbered key at or above `k` that is down, if any.
pub open spec fn first_key_from(keys: Seq<bool>, k: int) -> Option<u8>
    decreases 16 - k,
{
    if k < 0 || k >= 16 {
        None
    } else if keys[k] {
        Some(k as u8)
    } else {
        first_key_from(keys, k + 1)
    }
}

/// One pixel XOR-toggled at `(px, py)`.
pub open spec fn toggle_px(fb: Seq<bool>, px: int, py: int) -> Seq<bool> {
    fb.update(py * 64 + px, !fb[py * 64 + px])
}

/// The first `b` bits of one sprite row byte drawn at `(vx + bit, py)`, bits
/// taken most significant first, columns wrapping modulo 64. Yields the
/// framebuffer and whether any drawn bit unlit a previously lit pixel.
pub open spec fn draw_row_bits(fb: Seq<bool>, byte: u8, vx: int, py: int, b: int) -> (Seq<
    bool,
>, bool)
    decreases b,
{
    if b <= 0 {
        (fb, false)
    } else {
        let prev = draw_row_bits(fb, byte, vx, py, b - 1);
        if spec_is_set_n(byte, (7 - (b - 1)) as u8) {
            let px = (vx + (b - 1)) % 64;
            (toggle_px(prev.0, px, py), prev.1 || prev.0[py * 64 + px])
        } else {
            prev
        }
    }
}

/// The first `r` rows of a sprite drawn: row `k` is the memory byte at
/// `i + k` (wrapped), drawn on screen row `(vy + k) % 32`. Yields the
/// framebuffer and the aggregate collision over all rows.
pub open spec fn draw_rows(fb: Seq<bool>, mem: Seq<u8>, i: u16, vx: u8, vy: u8, r: int) -> (Seq<
    bool,
>, bool)
    decreases r,
{
    if r <= 0 {
        (fb, false)
    } else {
        let prev = draw_rows(fb, mem, i, vx, vy, r - 1);
        let byte = mem[(i + (r - 1)) % 4096];
        let py = (vy + (r - 1)) % 32;
        let row = draw_row_bits(prev.0, byte, vx as int, py, 8);
        (row.0, prev.1 || row.1)
    }
}

/// Registers `V0..=Vk` stored into memory at `i, i + 1, ...`, wrapped.
pub open spec fn store_regs(mem: Seq<u8>, v: Seq<u8>, i: u16, k: int) -> Seq<u8>
    decreases k + 1,
{
    if k < 0 {
        mem
    } else {
        store_regs(mem, v, i, k - 1).update((i + k) % 4096, v[k])
    }
}

/// Registers `V0..=Vk` filled from memory at `i, i + 1, ...`, wrapped.
pub open spec fn load_regs(v: Seq<u8>, mem: Seq<u8>, i: u16, k: int) -> Seq<u8>
    decreases k + 1,
{
    if k < 0 {
        v
    } else {
        load_regs(v, mem, i, k - 1).update(k, mem[(i + k) % 4096])
    }
}

/// The register-to-register group `8xyn`: load, bitwise operations, add with
/// carry, the two subtractions with a no-borrow flag, and the shifts. The
/// flag register VF is written first, so with `x == 15` the result wins.
pub open spec fn spec_alu(s: CpuView, op: u16) -> Outcome {
    let x = nib_x(op);
    let vx = s.v[x];
    let vy = s.v[nib_y(op)];
    let sub = nib_n(op);
    let pc2 = pc_add(s.pc, 2);
    if sub == 0 {
        step_ok(CpuView { v: s.v.update(x, vy), pc: pc2, ..s })
    } else if sub == 1 {
        step_ok(CpuView { v: s.v.update(x, vx | vy), pc: pc2, ..s })
    } else if sub == 2 {
        step_ok(CpuView { v: s.v.update(x, vx & vy), pc: pc2, ..s })
    } else if sub == 3 {
        step_ok(CpuView { v: s.v.update(x, vx ^ vy), pc: pc2, ..s })
    } else if sub == 4 {
        let flag: u8 = if vx + vy >= 256 { 1 } else { 0 };
        step_ok(CpuView { v: s.v.update(15, flag).update(x, wrap8(vx + vy)), pc: pc2, ..s })
    } else if sub == 5 {
        let flag: u8 = if vx >= vy { 1 } else { 0 };
        let diff: u8 = if vx >= vy { (vx - vy) as u8 } else { (vx - vy + 256) as u8 };
        step_ok(CpuView { v: s.v.update(15, flag).update(x, diff), pc: pc2, ..s })
    } else if sub == 6 {
        let flag: u8 = if vx % 2 == 1 { 1 } else { 0 };
        step_ok(CpuView { v: s.v.update(15, flag).update(x, (vx / 2) as u8), pc: pc2, ..s })
    } else if sub == 7 {
        let flag: u8 = if vy >= vx { 1 } else { 0 };
        let diff: u8 = if vy >= vx { (vy - vx) as u8 } else { (vy - vx + 256) as u8 };
        step_ok(CpuView { v: s.v.update(15, flag).update(x, diff), pc: pc2, ..s })
    } else if sub == 14 {
        let flag: u8 = if vx >= 128 { 1 } else { 0 };
        step_ok(CpuView { v: s.v.update(15, flag).update(x, wrap8(vx * 2)), pc: pc2, ..s })
    } else {
        step_err(s, Error::InvalidOpcode(op))
    }
}

/// The keypad skips `Ex9E` / `ExA1`: skip the next instruction when the key
/// named by the low nibble of `Vx` is down, respectively up.
pub open spec fn spec_key_skips(s: CpuView, op: u16) -> Outcome {
    let key = (s.v[nib_x(op)] % 16) as int;
    let sel = op % 256;
    if sel == 0x9E {
        step_ok(
            CpuView { pc: if s.keys[key] { pc_add(s.pc, 4) } else { pc_add(s.pc, 2) }, ..s },
        )
    } else if sel == 0xA1 {
        step_ok(
            CpuView { pc: if s.keys[key] { pc_add(s.pc, 2) } else { pc_add(s.pc, 4) }, ..s },
        )
    } else {
        step_err(s, Error::InvalidOpcode(op))
    }
}

/// The `Fxnn` group: timer moves, the blocking key wait, index arithmetic,
/// the digit-sprite address, binary-coded decimal, and the register block
/// copies, which leave the index register itself where it was. The wait
/// (`Fx0A`) with no key down arms `awaiting_key` and leaves the program
/// counter on the same instruction.
pub open spec fn spec_misc(s: CpuView, op: u16) -> Outcome {
    let x = nib_x(op);
    let vx = s.v[x];
    let sel = op % 256;
    let pc2 = pc_add(s.pc, 2);
    if sel == 0x07 {
        step_ok(CpuView { v: s.v.update(x, s.dt), pc: pc2, ..s })
    } else if sel == 0x0A {
        match first_key_from(s.keys, 0) {
            Some(k) => step_ok(CpuView { v: s.v.update(x, k), pc: pc2, ..s }),
            None => step_ok(CpuView { awaiting_key: Some(x as u8), ..s }),
        }
    } else if sel == 0x15 {
        step_ok(CpuView { dt: vx, pc: pc2, ..s })
    } else if sel == 0x18 {
        step_ok(CpuView { st: vx, pc: pc2, ..s })
    } else if sel == 0x1E {
        step_ok(CpuView { i: ((s.i + vx) % 4096) as u16, pc: pc2, ..s })
    } else if sel == 0x29 {
        step_ok(CpuView { i: (5 * (vx % 16)) as u16, pc: pc2, ..s })
    } else if sel == 0x33 {
        let mem = s.memory.update(s.i as int, (vx / 100) as u8).update(
            (s.i + 1) % 4096,
            ((vx / 10) % 10) as u8,
        ).update((s.i + 2) % 4096, (vx % 10) as u8);
        step_ok(CpuView { memory: mem, pc: pc2, ..s })
    } else if sel == 0x55 {
        step_ok(CpuView { memory: store_regs(s.memory, s.v, s.i, x), pc: pc2, ..s })
    } else if sel == 0x65 {
        step_ok(CpuView { v: load_regs(s.v, s.memory, s.i, x), pc: pc2, ..s })
    } else {
        step_err(s, Error::InvalidOpcode(op))
    }
}

/// One instruction `op` executed on state `s`. `rb` is the byte the random
/// source handed over; only `Cxkk` reads it. Dispatch is on the high nibble,
/// with a secondary selector inside groups 0, 8, E and F.
pub open spec fn spec_execute(s: CpuView, op: u16, rb: u8) -> Outcome {
    let g = group(op);
    let x = nib_x(op);
    let pc2 = pc_add(s.pc, 2);
    let pc4 = pc_add(s.pc, 4);
    if g == 0 {
        if op == 0x00E0 {
            step_ok(CpuView { fb: blank_fb(), pc: pc2, ..s })
        } else if op == 0x00EE {
            if s.sp == 0 {
                step_err(s, Error::StackUnderflow)
            } else {
                step_ok(CpuView { pc: s.stack[s.sp as int], sp: (s.sp - 1) as u8, ..s })
            }
        } else {
            step_err(s, Error::InvalidOpcode(op))
        }
    } else if g == 1 {
        step_ok(CpuView { pc: addr_nnn(op), ..s })
    } else if g == 2 {
        if s.sp >= 15 {
            step_err(s, Error::StackOverflow)
        } else {
            step_ok(
                CpuView {
                    sp: (s.sp + 1) as u8,
                    stack: s.stack.update(s.sp + 1, pc2),
                    pc: addr_nnn(op),
                    ..s
                },
            )
        }
    } else if g == 3 {
        step_ok(CpuView { pc: if s.v[x] == byte_kk(op) { pc4 } else { pc2 }, ..s })
    } else if g == 4 {
        step_ok(CpuView { pc: if s.v[x] != byte_kk(op) { pc4 } else { pc2 }, ..s })
    } else if g == 5 {
        step_ok(CpuView { pc: if s.v[x] == s.v[nib_y(op)] { pc4 } else { pc2 }, ..s })
    } else if g == 6 {
        step_ok(CpuView { v: s.v.update(x, byte_kk(op)), pc: pc2, ..s })
    } else if g == 7 {
        step_ok(CpuView { v: s.v.update(x, wrap8(s.v[x] + byte_kk(op))), pc: pc2, ..s })
    } else if g == 8 {
        spec_alu(s, op)
    } else if g == 9 {
        step_ok(CpuView { pc: if s.v[x] != s.v[nib_y(op)] { pc4 } else { pc2 }, ..s })
    } else if g == 10 {
        step_ok(CpuView { i: addr_nnn(op), pc: pc2, ..s })
    } else if g == 11 {
        step_ok(CpuView { pc: ((s.v[0] + addr_nnn(op)) % 4096) as u16, ..s })
    } else if g == 12 {
        step_ok(CpuView { v: s.v.update(x, rb & byte_kk(op)), pc: pc2, ..s })
    } else if g == 13 {
        let dr = draw_rows(s.fb, s.memory, s.i, s.v[x], s.v[nib_y(op)], nib_n(op));
        step_ok(
            CpuView {
                fb: dr.0,
                v: s.v.update(15, if dr.1 { 1u8 } else { 0u8 }),
                pc: pc2,
                ..s
            },
        )
    } else if g == 14 {
        spec_key_skips(s, op)
    } else {
        spec_misc(s, op)
    }
}

/// A timer count one tick later: decremented while nonzero, resting at zero.
pub open spec fn dec8(t: u8) -> u8 {
    if t > 0 {
        (t - 1) as u8
    } else {
        0
    }
}

/// One 60 Hz timer tick: both timers count down toward zero, nothing else
/// moves.
pub open spec fn spec_tick(s: CpuView) -> CpuView {
    CpuView { dt: dec8(s.dt), st: dec8(s.st), ..s }
}

/// One call of the engine on state `s`. A pending key wait is serviced first:
/// with a key down the key lands in the waiting register and the machine
/// moves on; with none the call changes nothing, so the driver keeps the
/// thread. Otherwise the instruction at the program counter runs.
pub open spec fn spec_step(s: CpuView, rb: u8) -> Outcome {
    match s.awaiting_key {
        Some(x) => match first_key_from(s.keys, 0) {
            Some(k) => step_ok(
                CpuView {
                    v: s.v.update(x as int, k),
                    awaiting_key: None,
                    pc: pc_add(s.pc, 2),
                    ..s
                },
            ),
            None => step_ok(s),
        },
        None => spec_execute(s, opcode_at(s), rb),
    }
}

} // verus!
