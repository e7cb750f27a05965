//! What a host needs to run the snake game on the CPU: the game reads the
//! direction keys and a random byte from fixed cells of page zero, and paints
//! a screen of 32 by 32 cells that lies in memory from 0x0200 on.
use rand::rngs::ThreadRng;
use rand::Rng;
use vstd::prelude::*;

use crate::cpu::CPU;
use crate::memory::loaded;

verus! {

/// The cell that the game watches for the key up.
pub const MMAP_DPAD_UP: u8 = 0x77;

/// The cell that the game watches for the key down.
pub const MMAP_DPAD_DOWN: u8 = 0x73;

/// The cell that the game watches for the key left.
pub const MMAP_DPAD_LEFT: u8 = 0x61;

/// The cell that the game watches for the key right.
pub const MMAP_DPAD_RIGHT: u8 = 0x64;

/// The cell from which the game reads a random number.
pub const MMAP_RANDOM: u16 = 0x00FE;

/// The first cell of the screen.
pub const SCREEN_ADDR_MIN: u16 = 0x0200;

/// The number of cells of the screen.
pub const SCREEN_CELLS: usize = 1024;

/// The number of bytes of a frame: three for each cell of the screen.
pub const FRAME_BYTES: usize = 3072;

/// The thread-local random number generator of the `rand` crate.
#[verifier::external_type_specification]
#[verifier::external_body]
pub struct ExThreadRng(ThreadRng);

/// `Rng::gen_range` of the `rand` crate on a half-open range of bytes: the
/// value drawn lies in the range, its low end included and its high end not.
/// The range must not be empty. Which value is drawn is not stated. The
/// generator ends the process where the operating system refuses it fresh
/// entropy; no argument decides that.
#[verifier::external_body]
fn random_in_range(rng: &mut ThreadRng, low: u8, high: u8) -> (value: u8)
    requires
        low < high,
    ensures
        low <= value < high,
{
    rng.gen_range(low..high)
}

/// What the user asks of the game.
#[derive(Debug, Clone, Copy, PartialEq, Eq, Structural)]
pub enum Input {
    /// Leave the game
    Quit,
    Up,
    Down,
    Left,
    Right,
    /// Any other event
    Other,
}

/// The colours that the game paints with.
#[derive(Debug, Clone, Copy, PartialEq, Eq, Structural)]
pub enum Swatch {
    Black,
    White,
    Grey,
    Red,
    Green,
    Blue,
    Magenta,
    Yellow,
    Cyan,
}

/// A colour as red, green and blue.
#[derive(Debug, Clone, Copy, PartialEq, Eq, Structural)]
pub struct Rgb {
    pub r: u8,
    pub g: u8,
    pub b: u8,
}

/// The red, green and blue of every swatch, as the display has them.
#[derive(Debug, Clone, Copy, PartialEq, Eq, Structural)]
pub struct Palette {
    pub black: Rgb,
    pub white: Rgb,
    pub grey: Rgb,
    pub red: Rgb,
    pub green: Rgb,
    pub blue: Rgb,
    pub magenta: Rgb,
    pub yellow: Rgb,
    pub cyan: Rgb,
}

/// The swatch that a byte of the screen stands for.
pub open spec fn swatch_of(byte: u8) -> Swatch {
    if byte == 0 {
        Swatch::Black
    } else if byte == 1 {
        Swatch::White
    } else if byte == 2 || byte == 9 {
        Swatch::Grey
    } else if byte == 3 || byte == 10 {
        Swatch::Red
    } else if byte == 4 || byte == 11 {
        Swatch::Green
    } else if byte == 5 || byte == 12 {
        Swatch::Blue
    } else if byte == 6 || byte == 13 {
        Swatch::Magenta
    } else if byte == 7 || byte == 14 {
        Swatch::Yellow
    } else {
        Swatch::Cyan
    }
}

impl Palette {
    /// The red, green and blue of a swatch.
    pub open spec fn shade(self, swatch: Swatch) -> Rgb {
        match swatch {
            Swatch::Black => self.black,
            Swatch::White => self.white,
            Swatch::Grey => self.grey,
            Swatch::Red => self.red,
            Swatch::Green => self.green,
            Swatch::Blue => self.blue,
            Swatch::Magenta => self.magenta,
            Swatch::Yellow => self.yellow,
            Swatch::Cyan => self.cyan,
        }
    }

    /// The red, green and blue of a swatch.
    pub fn rgb(&self, swatch: Swatch) -> (r: Rgb)
        ensures
            r == self.shade(swatch),
    {
        match swatch {
            Swatch::Black => self.black,
            Swatch::White => self.white,
            Swatch::Grey => self.grey,
            Swatch::Red => self.red,
            Swatch::Green => self.green,
            Swatch::Blue => self.blue,
            Swatch::Magenta => self.magenta,
            Swatch::Yellow => self.yellow,
            Swatch::Cyan => self.cyan,
        }
    }
}

/// Byte `index` of the frame that shows the screen held in `mem`: the bytes
/// 3k, 3k + 1 and 3k + 2 are the red, green and blue of cell k.
pub open spec fn frame_byte(mem: Seq<u8>, palette: Palette, index: int) -> u8 {
    let rgb = palette.shade(swatch_of(mem[SCREEN_ADDR_MIN + index / 3]));
    if index % 3 == 0 {
        rgb.r
    } else if index % 3 == 1 {
        rgb.g
    } else {
        rgb.b
    }
}

/// The frame that shows the screen held in `mem`.
pub open spec fn frame_of(mem: Seq<u8>, palette: Palette) -> Seq<u8> {
    Seq::new(FRAME_BYTES as nat, |index: int| frame_byte(mem, palette, index))
}

/// The swatch that a byte of the screen stands for.
pub fn color(byte: u8) -> (swatch: Swatch)
    ensures
        swatch == swatch_of(byte),
{
    match byte {
        0 => Swatch::Black,
        1 => Swatch::White,
        2 | 9 => Swatch::Grey,
        3 | 10 => Swatch::Red,
        4 | 11 => Swatch::Green,
        5 | 12 => Swatch::Blue,
        6 | 13 => Swatch::Magenta,
        7 | 14 => Swatch::Yellow,
        _ => Swatch::Cyan,
    }
}

/// Hands one input to the game: a direction key sets the cell that the game
/// watches for it to 0xFF. Returns whether the user asked to leave, in which
/// case nothing is written; any other event changes nothing either.
pub fn handle_user_input(cpu: &mut CPU, input: Input) -> (quit: bool)
    ensures
        quit == (input is Quit),
        final(cpu)@.reg == old(cpu)@.reg,
        final(cpu)@.mem == match input {
            Input::Up => old(cpu)@.mem.update(MMAP_DPAD_UP as int, 0xFFu8),
            Input::Down => old(cpu)@.mem.update(MMAP_DPAD_DOWN as int, 0xFFu8),
            Input::Left => old(cpu)@.mem.update(MMAP_DPAD_LEFT as int, 0xFFu8),
            Input::Right => old(cpu)@.mem.update(MMAP_DPAD_RIGHT as int, 0xFFu8),
            _ => old(cpu)@.mem,
        },
{
    let pressed: [u8; 1] = [0xFF];
    match input {
        Input::Quit => {
            return true;
        },
        Input::Up => cpu.load(MMAP_DPAD_UP as u16, pressed.as_slice()),
        Input::Down => cpu.load(MMAP_DPAD_DOWN as u16, pressed.as_slice()),
        Input::Left => cpu.load(MMAP_DPAD_LEFT as u16, pressed.as_slice()),
        Input::Right => cpu.load(MMAP_DPAD_RIGHT as u16, pressed.as_slice()),
        Input::Other => {
            return false;
        },
    }
    proof {
        let addr = match input {
            Input::Up => MMAP_DPAD_UP,
            Input::Down => MMAP_DPAD_DOWN,
            Input::Left => MMAP_DPAD_LEFT,
            _ => MMAP_DPAD_RIGHT,
        };
        assert(loaded(old(cpu)@.mem, addr as int, pressed@) =~= old(cpu)@.mem.update(
            addr as int,
            0xFFu8,
        ));
    }
    false
}

/// Stores `value` in the cell from which the game reads its random number.
pub fn store_random(cpu: &mut CPU, value: u8)
    ensures
        final(cpu)@.reg == old(cpu)@.reg,
        final(cpu)@.mem == old(cpu)@.mem.update(MMAP_RANDOM as int, value),
{
    let data: [u8; 1] = [value];
    cpu.load(MMAP_RANDOM, data.as_slice());
    assert(loaded(old(cpu)@.mem, MMAP_RANDOM as int, data@) =~= old(cpu)@.mem.update(
        MMAP_RANDOM as int,
        value,
    ));
}

/// Draws a number from 1 to 15 and stores it in the cell from which the game
/// reads its random number. Nothing else changes.
pub fn inject_random(cpu: &mut CPU, rng: &mut ThreadRng)
    ensures
        final(cpu)@.reg == old(cpu)@.reg,
        1 <= final(cpu)@.mem[MMAP_RANDOM as int] < 16,
        final(cpu)@.mem == old(cpu)@.mem.update(
            MMAP_RANDOM as int,
            final(cpu)@.mem[MMAP_RANDOM as int],
        ),
{
    let value = random_in_range(rng, 1, 16);
    store_random(cpu, value);
}

/// Brings `frame` up to date with the screen in the CPU's memory. Returns
/// whether any byte of the frame had to change.
pub fn read_screen_state(cpu: &CPU, frame: &mut [u8; 3072], palette: &Palette) -> (update: bool)
    ensures
        final(frame)@ == frame_of(cpu@.mem, *palette),
        update == (old(frame)@ != frame_of(cpu@.mem, *palette)),
{
    let mut frame_idx: usize = 0;
    let mut update = false;
    let mut i: u16 = 0x0200;
    while i < 0x0600
        invariant
            0x0200 <= i <= 0x0600,
            frame_idx == 3 * (i - 0x0200),
            forall|k: int| 0 <= k < frame_idx ==> frame@[k] == frame_byte(cpu@.mem, *palette, k),
            forall|k: int| frame_idx <= k < 3072 ==> frame@[k] == old(frame)@[k],
            update == exists|k: int|
                0 <= k < frame_idx && old(frame)@[k] != frame_byte(cpu@.mem, *palette, k),
        decreases 0x0600 - i,
    {
        let color_idx = cpu.read(i);
        let rgb = palette.rgb(color(color_idx));
        let ghost before = update;
        if frame[frame_idx] != rgb.r || frame[frame_idx + 1] != rgb.g || frame[frame_idx + 2]
            != rgb.b {
            frame[frame_idx] = rgb.r;
            frame[frame_idx + 1] = rgb.g;
            frame[frame_idx + 2] = rgb.b;
            update = true;
        }
        proof {
            let f = frame_idx as int;
            assert(f / 3 == i - 0x0200 && (f + 1) / 3 == i - 0x0200 && (f + 2) / 3 == i - 0x0200);
            assert(f % 3 == 0 && (f + 1) % 3 == 1 && (f + 2) % 3 == 2);
            assert(frame_byte(cpu@.mem, *palette, f) == rgb.r);
            assert(frame_byte(cpu@.mem, *palette, f + 1) == rgb.g);
            assert(frame_byte(cpu@.mem, *palette, f + 2) == rgb.b);
            if update && !before {
                let k = if old(frame)@[f] != rgb.r {
                    f
                } else if old(frame)@[f + 1] != rgb.g {
                    f + 1
                } else {
                    f + 2
                };
                assert(0 <= k < f + 3 && old(frame)@[k] != frame_byte(cpu@.mem, *palette, k));
            }
            if before {
                let k = choose|k: int|
                    0 <= k < f && old(frame)@[k] != frame_byte(cpu@.mem, *palette, k);
                assert(0 <= k < f + 3 && old(frame)@[k] != frame_byte(cpu@.mem, *palette, k));
            }
        }
        frame_idx += 3;
        i += 1;
    }
    proof {
        let target = frame_of(cpu@.mem, *palette);
        assert(frame@ =~= target);
        if update {
            let k = choose|k: int|
                0 <= k < 3072 && old(frame)@[k] != frame_byte(cpu@.mem, *palette, k);
            assert(old(frame)@[k] != target[k]);
        } else {
            assert(old(frame)@ =~= target);
        }
    }
    update
}

} // verus!
