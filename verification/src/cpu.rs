//! The machine: all CPU state, the fetch-decode-execute engine, and the
//! operations the surrounding driver consumes.
//!
//! Every mutation of the state is proved equal to the mathematical step
//! function in `semantics`; the one unverified ingredient is the byte the
//! random source hands to `Cxkk`.

use vstd::prelude::*;
use vstd::pervasive::VecAdditionalExecFns;
use crate::Error;
use crate::bits::AsBoolSlice;
use crate::decode::{get_kk, get_n, get_nnn, get_x, get_y};
use crate::display::Display;
use crate::semantics::{
    draw_row_bits, draw_rows, first_key_from, initial_cpu, load_regs, opcode_at, pc_add,
    spec_alu, spec_font, spec_key_skips, spec_misc, spec_step, spec_tick, store_regs, wf,
    CpuView,
};

verus! {

/// The sixteen key-down states of the hex keypad. The machine only reads
/// them; the input collaborator writes them through `set_key`.
pub struct Keypad {
    pub keys: Vec<bool>,
}

/// The CHIP-8 machine state: index register, program counter, 4096 bytes of
/// memory, sixteen registers, the keypad and display peripherals, sixteen
/// return-address slots with a stack pointer, the two timers, and the
/// register waiting on a key press, if any.
pub struct Cpu {
    /// Index register, a 12-bit memory cursor.
    pub i: u16,
    /// Program counter.
    pub pc: u16,
    /// Memory: 4096 cells, font table at 0x000, programs from 0x200.
    pub memory: Vec<u8>,
    /// Registers V0 through VF; VF doubles as the flag register.
    pub v: Vec<u8>,
    /// Keypad peripheral.
    pub keypad: Keypad,
    /// Display peripheral.
    pub display: Display,
    /// Sixteen return-address slots.
    pub stack: Vec<u16>,
    /// Stack pointer: the highest slot in use, zero when empty.
    pub sp: u8,
    /// Delay timer.
    pub dt: u8,
    /// Sound timer.
    pub st: u8,
    /// The register a blocking `Fx0A` key wait will fill, if one is pending.
    pub awaiting_key: Option<u8>,
}

impl View for Cpu {
    type V = CpuView;

    open spec fn view(&self) -> CpuView {
        CpuView {
            i: self.i,
            pc: self.pc,
            memory: self.memory@,
            v: self.v@,
            stack: self.stack@,
            sp: self.sp,
            dt: self.dt,
            st: self.st,
            keys: self.keypad.keys@,
            awaiting_key: self.awaiting_key,
            fb: self.display@,
        }
    }
}

/// The 80-byte hex-digit sprite table placed in low memory at construction.
#[verifier::rlimit(100)]
#[verifier::spinoff_prover]
fn font_table() -> (r: Vec<u8>)
    ensures
        r@ == spec_font(),
{
    let mut f: Vec<u8> = Vec::new();
    f.push(0xF0); f.push(0x90); f.push(0x90); f.push(0x90); f.push(0xF0);
    f.push(0x20); f.push(0x60); f.push(0x20); f.push(0x20); f.push(0x70);
    f.push(0xF0); f.push(0x10); f.push(0xF0); f.push(0x80); f.push(0xF0);
    f.push(0xF0); f.push(0x10); f.push(0xF0); f.push(0x10); f.push(0xF0);
    f.push(0x90); f.push(0x90); f.push(0xF0); f.push(0x10); f.push(0x10);
    f.push(0xF0); f.push(0x80); f.push(0xF0); f.push(0x10); f.push(0xF0);
    f.push(0xF0); f.push(0x80); f.push(0xF0); f.push(0x90); f.push(0xF0);
    f.push(0xF0); f.push(0x10); f.push(0x20); f.push(0x40); f.push(0x40);
    f.push(0xF0); f.push(0x90); f.push(0xF0); f.push(0x90); f.push(0xF0);
    f.push(0xF0); f.push(0x90); f.push(0xF0); f.push(0x10); f.push(0xF0);
    f.push(0xF0); f.push(0x90); f.push(0xF0); f.push(0x90); f.push(0x90);
    f.push(0xE0); f.push(0x90); f.push(0xE0); f.push(0x90); f.push(0xE0);
    f.push(0xF0); f.push(0x80); f.push(0x80); f.push(0x80); f.push(0xF0);
    f.push(0xE0); f.push(0x90); f.push(0x90); f.push(0x90); f.push(0xE0);
    f.push(0xF0); f.push(0x80); f.push(0xF0); f.push(0x80); f.push(0xF0);
    f.push(0xF0); f.push(0x80); f.push(0xF0); f.push(0x80); f.push(0x80);
    proof {
        assert(f@ =~= spec_font());
    }
    f
}

/// Copies `bytes` into `mem` starting at `at`, leaving the rest untouched.
fn copy_into(mem: &mut Vec<u8>, bytes: &Vec<u8>, at: usize)
    requires
        old(mem)@.len() == 4096,
        at + bytes@.len() <= 4096,
    ensures
        final(mem)@ == old(mem)@.subrange(0, at as int) + bytes@ + old(mem)@.subrange(
            (at + bytes@.len()) as int,
            4096,
        ),
{
    let ghost m0 = mem@;
    let mut k: usize = 0;
    while k < bytes.len()
        invariant
            mem@.len() == 4096,
            at + bytes@.len() <= 4096,
            k <= bytes@.len(),
            forall|j: int| 0 <= j < at ==> mem@[j] == m0[j],
            forall|j: int| 0 <= j < k ==> mem@[at + j] == bytes@[j],
            forall|j: int| at + k <= j < 4096 ==> mem@[j] == m0[j],
        decreases bytes@.len() - k,
    {
        mem.set(at + k, bytes[k]);
        k += 1;
    }
    proof {
        assert(mem@ =~= m0.subrange(0, at as int) + bytes@ + m0.subrange(
            (at + bytes@.len()) as int,
            4096,
        ));
    }
}

/// The lowest-numbered key at or above `k` that is currently down.
fn scan_keys(keys: &Vec<bool>, k: usize) -> (r: Option<u8>)
    requires
        keys@.len() == 16,
        k <= 16,
    ensures
        r == first_key_from(keys@, k as int),
    decreases 16 - k,
{
    if k >= 16 {
        None
    } else if keys[k] {
        Some(k as u8)
    } else {
        scan_keys(keys, k + 1)
    }
}

/// Draws one sprite row byte, most significant bit first, at screen row
/// `py`, columns `vx + bit` wrapping modulo 64. Returns whether any drawn
/// bit unlit a previously lit pixel.
fn draw_row(d: &mut Display, byte: u8, vx: u8, py: usize) -> (col: bool)
    requires
        old(d).wf(),
        py < 32,
    ensures
        final(d).wf(),
        final(d)@ == draw_row_bits(old(d)@, byte, vx as int, py as int, 8).0,
        col == draw_row_bits(old(d)@, byte, vx as int, py as int, 8).1,
{
    let ghost fb0 = d@;
    let mut col = false;
    let mut b: usize = 0;
    while b < 8
        invariant
            d.wf(),
            py < 32,
            b <= 8,
            d@ == draw_row_bits(fb0, byte, vx as int, py as int, b as int).0,
            col == draw_row_bits(fb0, byte, vx as int, py as int, b as int).1,
        decreases 8 - b,
    {
        if byte.is_set_n((7 - b) as u8) {
            let px = ((vx as usize) + b) % 64;
            match d.set_pixel(px, py) {
                Ok(was_lit) => {
                    col = col || was_lit;
                },
                Err(_) => {
                    proof {
                        assert(false);
                    }
                },
            }
        }
        b += 1;
    }
    col
}

/// Draws an `n`-row sprite read from memory at the index register, the
/// upper-left corner at `(vx, vy)`, rows wrapping modulo 32. Returns the
/// aggregate collision flag over the whole sprite.
fn draw_sprite(d: &mut Display, mem: &Vec<u8>, i: u16, vx: u8, vy: u8, n: u8) -> (col: bool)
    requires
        old(d).wf(),
        mem@.len() == 4096,
        i < 4096,
        n < 16,
    ensures
        final(d).wf(),
        final(d)@ == draw_rows(old(d)@, mem@, i, vx, vy, n as int).0,
        col == draw_rows(old(d)@, mem@, i, vx, vy, n as int).1,
{
    let ghost fb0 = d@;
    let mut col = false;
    let mut r: usize = 0;
    while r < n as usize
        invariant
            d.wf(),
            mem@.len() == 4096,
            i < 4096,
            n < 16,
            r <= n as usize,
            d@ == draw_rows(fb0, mem@, i, vx, vy, r as int).0,
            col == draw_rows(fb0, mem@, i, vx, vy, r as int).1,
        decreases n - r,
    {
        let byte = mem[((i as usize) + r) % 4096];
        let py = ((vy as usize) + r) % 32;
        let row_col = draw_row(d, byte, vx, py);
        col = col || row_col;
        r += 1;
    }
    col
}

/// Stores registers `V0..=Vx` into memory at the index register onward,
/// addresses wrapping modulo 4096.
fn store_regs_exec(mem: &mut Vec<u8>, v: &Vec<u8>, i: u16, x: usize)
    requires
        old(mem)@.len() == 4096,
        v@.len() == 16,
        i < 4096,
        x < 16,
    ensures
        final(mem)@ == store_regs(old(mem)@, v@, i, x as int),
        final(mem)@.len() == 4096,
{
    let ghost m0 = mem@;
    let mut k: usize = 0;
    while k <= x
        invariant
            mem@.len() == 4096,
            v@.len() == 16,
            i < 4096,
            x < 16,
            k <= x + 1,
            mem@ == store_regs(m0, v@, i, k as int - 1),
        decreases x + 1 - k,
    {
        mem.set(((i as usize) + k) % 4096, v[k]);
        k += 1;
    }
}

/// Fills registers `V0..=Vx` from memory at the index register onward,
/// addresses wrapping modulo 4096.
fn load_regs_exec(v: &mut Vec<u8>, mem: &Vec<u8>, i: u16, x: usize)
    requires
        old(v)@.len() == 16,
        mem@.len() == 4096,
        i < 4096,
        x < 16,
    ensures
        final(v)@ == load_regs(old(v)@, mem@, i, x as int),
        final(v)@.len() == 16,
{
    let ghost v0 = v@;
    let mut k: usize = 0;
    while k <= x
        invariant
            v@.len() == 16,
            mem@.len() == 4096,
            i < 4096,
            x < 16,
            k <= x + 1,
            v@ == load_regs(v0, mem@, i, k as int - 1),
        decreases x + 1 - k,
    {
        v.set(k, mem[((i as usize) + k) % 4096]);
        k += 1;
    }
}

/// Relies on rand::random: one byte from the thread-local generator.
/// Nothing is promised of its value; the step function is proved for every
/// byte this could return.
#[verifier::external_body]
fn random_byte() -> u8 {
    rand::random::<u8>()
}

impl Cpu {
    /// Constructs the machine in its start state: everything zeroed, the
    /// program counter at the 0x200 program origin, the font table in low
    /// memory, the framebuffer dark.
    pub fn new() -> (c: Cpu)
        ensures
            c@ == initial_cpu(),
            wf(c@),
    {
        let mut memory = font_table();
        let mut j: usize = 80;
        while j < 4096
            invariant
                80 <= j <= 4096,
                memory@.len() == j,
                forall|k: int| 0 <= k < 80 ==> memory@[k] == spec_font()[k],
                forall|k: int| 80 <= k < j ==> memory@[k] == 0u8,
            decreases 4096 - j,
        {
            memory.push(0u8);
            j += 1;
        }
        let mut v: Vec<u8> = Vec::new();
        let mut stack: Vec<u16> = Vec::new();
        let mut keys: Vec<bool> = Vec::new();
        let mut j: usize = 0;
        while j < 16
            invariant
                j <= 16,
                v@.len() == j,
                stack@.len() == j,
                keys@.len() == j,
                forall|k: int| 0 <= k < j ==> v@[k] == 0u8,
                forall|k: int| 0 <= k < j ==> stack@[k] == 0u16,
                forall|k: int| 0 <= k < j ==> !keys@[k],
            decreases 16 - j,
        {
            v.push(0u8);
            stack.push(0u16);
            keys.push(false);
            j += 1;
        }
        let c = Cpu {
            i: 0,
            pc: 0x200,
            memory,
            v,
            keypad: Keypad { keys },
            display: Display::new(),
            stack,
            sp: 0,
            dt: 0,
            st: 0,
            awaiting_key: None,
        };
        proof {
            assert(c@.memory =~= initial_cpu().memory);
            assert(c@.v =~= initial_cpu().v);
            assert(c@.stack =~= initial_cpu().stack);
            assert(c@.keys =~= initial_cpu().keys);
            assert(c@ =~= initial_cpu());
        }
        c
    }

    /// Copies a program image into memory at the 0x200 origin. An image
    /// larger than the 3584 bytes of program space is rejected whole.
    pub fn load(&mut self, bytes: &Vec<u8>) -> (r: Result<usize, Error>)
        requires
            wf(old(self)@),
        ensures
            wf(final(self)@),
            bytes@.len() > 3584 ==> {
                &&& r == Err::<usize, Error>(Error::LoadError)
                &&& final(self)@ == old(self)@
            },
            bytes@.len() <= 3584 ==> {
                &&& r == Ok::<usize, Error>(bytes@.len() as usize)
                &&& final(self)@ == (CpuView {
                    memory: old(self)@.memory.subrange(0, 0x200) + bytes@
                        + old(self)@.memory.subrange((0x200 + bytes@.len()) as int, 4096),
                    ..old(self)@
                })
            },
    {
        if bytes.len() > 3584 {
            return Err(Error::LoadError);
        }
        copy_into(&mut self.memory, bytes, 0x200);
        Ok(bytes.len())
    }

    /// One 60 Hz tick: each timer counts down by one while nonzero and rests
    /// at zero; no other state moves.
    pub fn tick_timers(&mut self)
        requires
            wf(old(self)@),
        ensures
            wf(final(self)@),
            final(self)@ == spec_tick(old(self)@),
    {
        if self.dt > 0 {
            self.dt = self.dt - 1;
        }
        if self.st > 0 {
            self.st = self.st - 1;
        }
    }

    /// Records a key going down or up. Consumed by the input collaborator;
    /// the skip and key-wait instructions read what it wrote.
    pub fn set_key(&mut self, index: usize, down: bool)
        requires
            wf(old(self)@),
            index < 16,
        ensures
            wf(final(self)@),
            final(self)@ == (CpuView {
                keys: old(self)@.keys.update(index as int, down),
                ..old(self)@
            }),
    {
        self.keypad.keys.set(index, down);
    }

    /// A snapshot of the 64x32 framebuffer, row-major, for a renderer.
    pub fn framebuffer_snapshot(&self) -> (r: Vec<bool>)
        requires
            wf(self@),
        ensures
            r@ == self@.fb,
    {
        let mut out: Vec<bool> = Vec::new();
        let mut j: usize = 0;
        while j < 2048
            invariant
                j <= 2048,
                out@.len() == j,
                self.display.vram@.len() == 2048,
                forall|k: int| 0 <= k < j ==> out@[k] == self.display.vram@[k],
            decreases 2048 - j,
        {
            out.push(self.display.vram[j]);
            j += 1;
        }
        proof {
            assert(out@ =~= self@.fb);
        }
        out
    }

    /// The 16-bit instruction word at the program counter, high byte first.
    fn get_opcode(&self) -> (r: u16)
        requires
            wf(self@),
        ensures
            r == opcode_at(self@),
    {
        let b1 = self.memory[self.pc as usize];
        let b2 = self.memory[((self.pc as usize) + 1) % 4096];
        proof {
            assert(((b1 as u16) << 8) | (b2 as u16) == b1 as int * 256 + b2 as int)
                by (bit_vector);
        }
        ((b1 as u16) << 8) | (b2 as u16)
    }

    /// Moves the program counter past the current instruction.
    fn increment_pc(&mut self)
        requires
            old(self)@.pc < 4096,
        ensures
            final(self)@ == (CpuView { pc: pc_add(old(self)@.pc, 2), ..old(self)@ }),
    {
        self.pc = (self.pc + 2) % 4096;
    }

    /// Moves the program counter past the current instruction and the next:
    /// a taken skip.
    fn skip_pc(&mut self)
        requires
            old(self)@.pc < 4096,
        ensures
            final(self)@ == (CpuView { pc: pc_add(old(self)@.pc, 4), ..old(self)@ }),
    {
        self.pc = (self.pc + 4) % 4096;
    }

    /// The register-to-register group `8xyn`.
    fn execute_alu(&mut self, opcode: u16) -> (r: Result<(), Error>)
        requires
            wf(old(self)@),
        ensures
            wf(final(self)@),
            final(self)@ == spec_alu(old(self)@, opcode).post,
            r == spec_alu(old(self)@, opcode).result,
    {
        let x = get_x(opcode);
        let y = get_y(opcode);
        let sub = get_n(opcode);
        let vx = self.v[x];
        let vy = self.v[y];
        match sub {
            0x0 => {
                self.v.set(x, vy);
                self.increment_pc();
                Ok(())
            },
            0x1 => {
                self.v.set(x, vx | vy);
                self.increment_pc();
                Ok(())
            },
            0x2 => {
                self.v.set(x, vx & vy);
                self.increment_pc();
                Ok(())
            },
            0x3 => {
                self.v.set(x, vx ^ vy);
                self.increment_pc();
                Ok(())
            },
            0x4 => {
                let sum = vx as u16 + vy as u16;
                self.v.set(15, if sum >= 256 { 1 } else { 0 });
                self.v.set(x, (sum % 256) as u8);
                self.increment_pc();
                Ok(())
            },
            0x5 => {
                self.v.set(15, if vx >= vy { 1 } else { 0 });
                let diff = if vx >= vy {
                    vx - vy
                } else {
                    ((vx as u16 + 256) - vy as u16) as u8
                };
                self.v.set(x, diff);
                self.increment_pc();
                Ok(())
            },
            0x6 => {
                self.v.set(15, if vx % 2 == 1 { 1 } else { 0 });
                self.v.set(x, vx / 2);
                self.increment_pc();
                Ok(())
            },
            0x7 => {
                self.v.set(15, if vy >= vx { 1 } else { 0 });
                let diff = if vy >= vx {
                    vy - vx
                } else {
                    ((vy as u16 + 256) - vx as u16) as u8
                };
                self.v.set(x, diff);
                self.increment_pc();
                Ok(())
            },
            0xE => {
                self.v.set(15, if vx >= 128 { 1 } else { 0 });
                self.v.set(x, ((vx as u16 * 2) % 256) as u8);
                self.increment_pc();
                Ok(())
            },
            _ => Err(Error::InvalidOpcode(opcode)),
        }
    }

    /// The keypad skips `Ex9E` / `ExA1`.
    fn execute_key_skips(&mut self, opcode: u16) -> (r: Result<(), Error>)
        requires
            wf(old(self)@),
        ensures
            wf(final(self)@),
            final(self)@ == spec_key_skips(old(self)@, opcode).post,
            r == spec_key_skips(old(self)@, opcode).result,
    {
        let x = get_x(opcode);
        let sel = get_kk(opcode);
        let key = (self.v[x] % 16) as usize;
        if sel == 0x9E {
            if self.keypad.keys[key] {
                self.skip_pc();
            } else {
                self.increment_pc();
            }
            Ok(())
        } else if sel == 0xA1 {
            if self.keypad.keys[key] {
                self.increment_pc();
            } else {
                self.skip_pc();
            }
            Ok(())
        } else {
            Err(Error::InvalidOpcode(opcode))
        }
    }

    /// The `Fxnn` group: timers, the key wait, index arithmetic, digit
    /// sprites, binary-coded decimal, and the register block copies.
    fn execute_misc(&mut self, opcode: u16) -> (r: Result<(), Error>)
        requires
            wf(old(self)@),
        ensures
            wf(final(self)@),
            final(self)@ == spec_misc(old(self)@, opcode).post,
            r == spec_misc(old(self)@, opcode).result,
    {
        let x = get_x(opcode);
        let sel = get_kk(opcode);
        if sel == 0x07 {
            let dt = self.dt;
            self.v.set(x, dt);
            self.increment_pc();
            Ok(())
        } else if sel == 0x0A {
            match scan_keys(&self.keypad.keys, 0) {
                Some(k) => {
                    self.v.set(x, k);
                    self.increment_pc();
                },
                None => {
                    self.awaiting_key = Some(x as u8);
                },
            }
            Ok(())
        } else if sel == 0x15 {
            self.dt = self.v[x];
            self.increment_pc();
            Ok(())
        } else if sel == 0x18 {
            self.st = self.v[x];
            self.increment_pc();
            Ok(())
        } else if sel == 0x1E {
            self.i = (self.i + self.v[x] as u16) % 4096;
            self.increment_pc();
            Ok(())
        } else if sel == 0x29 {
            self.i = 5 * ((self.v[x] % 16) as u16);
            self.increment_pc();
            Ok(())
        } else if sel == 0x33 {
            let vx = self.v[x];
            let i0 = self.i as usize;
            self.memory.set(i0, vx / 100);
            self.memory.set((i0 + 1) % 4096, (vx / 10) % 10);
            self.memory.set((i0 + 2) % 4096, vx % 10);
            self.increment_pc();
            Ok(())
        } else if sel == 0x55 {
            store_regs_exec(&mut self.memory, &self.v, self.i, x);
            self.increment_pc();
            Ok(())
        } else if sel == 0x65 {
            load_regs_exec(&mut self.v, &self.memory, self.i, x);
            self.increment_pc();
            Ok(())
        } else {
            Err(Error::InvalidOpcode(opcode))
        }
    }

    /// Executes exactly one instruction, the byte for `Cxkk` supplied by the
    /// caller: the whole step is proved equal to `spec_step` for every value
    /// of that byte.
    pub fn step_with_random(&mut self, rb: u8) -> (r: Result<(), Error>)
        requires
            wf(old(self)@),
        ensures
            wf(final(self)@),
            final(self)@ == spec_step(old(self)@, rb).post,
            r == spec_step(old(self)@, rb).result,
    {
        if let Some(x) = self.awaiting_key {
            match scan_keys(&self.keypad.keys, 0) {
                Some(k) => {
                    self.v.set(x as usize, k);
                    self.awaiting_key = None;
                    self.increment_pc();
                },
                None => {},
            }
            return Ok(());
        }
        let opcode = self.get_opcode();
        let x = get_x(opcode);
        let y = get_y(opcode);
        let n = get_n(opcode);
        let kk = get_kk(opcode);
        let nnn = get_nnn(opcode);
        let g = opcode / 0x1000;
        proof {
            assert(g < 16);
        }
        match g {
            0x0 => {
                if opcode == 0x00E0 {
                    self.display.clear();
                    self.increment_pc();
                    Ok(())
                } else if opcode == 0x00EE {
                    if self.sp == 0 {
                        return Err(Error::StackUnderflow);
                    }
                    self.pc = self.stack[self.sp as usize];
                    self.sp = self.sp - 1;
                    Ok(())
                } else {
                    Err(Error::InvalidOpcode(opcode))
                }
            },
            0x1 => {
                self.pc = nnn;
                Ok(())
            },
            0x2 => {
                if self.sp >= 15 {
                    return Err(Error::StackOverflow);
                }
                let ret = (self.pc + 2) % 4096;
                self.sp = self.sp + 1;
                self.stack.set(self.sp as usize, ret);
                self.pc = nnn;
                Ok(())
            },
            0x3 => {
                if self.v[x] == kk {
                    self.skip_pc();
                } else {
                    self.increment_pc();
                }
                Ok(())
            },
            0x4 => {
                if self.v[x] != kk {
                    self.skip_pc();
                } else {
                    self.increment_pc();
                }
                Ok(())
            },
            0x5 => {
                if self.v[x] == self.v[y] {
                    self.skip_pc();
                } else {
                    self.increment_pc();
                }
                Ok(())
            },
            0x6 => {
                self.v.set(x, kk);
                self.increment_pc();
                Ok(())
            },
            0x7 => {
                let sum = self.v[x] as u16 + kk as u16;
                self.v.set(x, (sum % 256) as u8);
                self.increment_pc();
                Ok(())
            },
            0x8 => self.execute_alu(opcode),
            0x9 => {
                if self.v[x] != self.v[y] {
                    self.skip_pc();
                } else {
                    self.increment_pc();
                }
                Ok(())
            },
            0xA => {
                self.i = nnn;
                self.increment_pc();
                Ok(())
            },
            0xB => {
                self.pc = (self.v[0] as u16 + nnn) % 4096;
                Ok(())
            },
            0xC => {
                self.v.set(x, rb & kk);
                self.increment_pc();
                Ok(())
            },
            0xD => {
                let vx = self.v[x];
                let vy = self.v[y];
                let col = draw_sprite(&mut self.display, &self.memory, self.i, vx, vy, n);
                self.v.set(15, if col { 1 } else { 0 });
                self.increment_pc();
                Ok(())
            },
            0xE => self.execute_key_skips(opcode),
            _ => self.execute_misc(opcode),
        }
    }

    /// Executes exactly one instruction at the program counter: the one
    /// operation the driver calls in its fetch-decode-execute loop. The
    /// random source only feeds `Cxkk`; whatever byte it produced, the step
    /// taken is `spec_step` on that byte.
    pub fn execute_opcode(&mut self) -> (r: Result<(), Error>)
        requires
            wf(old(self)@),
        ensures
            wf(final(self)@),
            exists|rb: u8|
                #![auto]
                final(self)@ == spec_step(old(self)@, rb).post && r == spec_step(
                    old(self)@,
                    rb,
                ).result,
    {
        let rb = random_byte();
        self.step_with_random(rb)
    }
}

} // verus!
