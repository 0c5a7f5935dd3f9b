//! The conventions of a guest program that draws a 32 by 32 picture: one
//! colour byte per pixel in memory, one byte for the last key, and the frame
//! of three bytes per pixel that a front end presents.

use crate::cpu::CPU;
use crate::memory::{Memory, MemoryError};
use crate::semantics::CpuState;
use vstd::prelude::*;

verus! {

/// The address of the first pixel.
pub const SCREEN_START: u16 = 0x0200;

/// The number of pixels.
pub const SCREEN_PIXELS: usize = 0x0400;

/// The number of bytes of a frame: three for each pixel.
pub const FRAME_SIZE: usize = 0x0C00;

/// The address at which the guest program finds the last key.
pub const INPUT_ADDRESS: u16 = 0x00FF;

/// The colours that a pixel can have.
#[derive(Clone, Copy, Debug, PartialEq, Eq, Structural)]
pub enum ScreenColor {
    Black,
    White,
    Grey,
    Red,
    Green,
    Blue,
    Magenta,
    Yellow,
    Cyan,
}

/// Red, green and blue of each colour, as the front end renders them.
#[derive(Clone, Copy, Debug)]
pub struct Palette {
    pub black: (u8, u8, u8),
    pub white: (u8, u8, u8),
    pub grey: (u8, u8, u8),
    pub red: (u8, u8, u8),
    pub green: (u8, u8, u8),
    pub blue: (u8, u8, u8),
    pub magenta: (u8, u8, u8),
    pub yellow: (u8, u8, u8),
    pub cyan: (u8, u8, u8),
}

/// What the front end saw happen at the keyboard or the window.
#[derive(Clone, Copy, Debug, PartialEq, Eq, Structural)]
pub enum InputEvent {
    /// The window was closed or Escape pressed.
    Quit,
    /// The key W.
    Up,
    /// The key S.
    Down,
    /// The key A.
    Left,
    /// The key D.
    Right,
    /// Anything else.
    Other,
}

/// The colour that a pixel byte stands for.
pub open spec fn color_spec(byte: u8) -> ScreenColor {
    if byte == 0 {
        ScreenColor::Black
    } else if byte == 1 {
        ScreenColor::White
    } else if byte == 2 || byte == 9 {
        ScreenColor::Grey
    } else if byte == 3 || byte == 10 {
        ScreenColor::Red
    } else if byte == 4 || byte == 11 {
        ScreenColor::Green
    } else if byte == 5 || byte == 12 {
        ScreenColor::Blue
    } else if byte == 6 || byte == 13 {
        ScreenColor::Magenta
    } else if byte == 7 || byte == 14 {
        ScreenColor::Yellow
    } else {
        ScreenColor::Cyan
    }
}

/// The colour that a pixel byte stands for.
pub fn color(byte: u8) -> (c: ScreenColor)
    ensures
        c == color_spec(byte),
{
    match byte {
        0 => ScreenColor::Black,
        1 => ScreenColor::White,
        2 | 9 => ScreenColor::Grey,
        3 | 10 => ScreenColor::Red,
        4 | 11 => ScreenColor::Green,
        5 | 12 => ScreenColor::Blue,
        6 | 13 => ScreenColor::Magenta,
        7 | 14 => ScreenColor::Yellow,
        _ => ScreenColor::Cyan,
    }
}

impl Palette {
    /// Red, green and blue of a colour.
    pub open spec fn rgb_spec(self, c: ScreenColor) -> (u8, u8, u8) {
        match c {
            ScreenColor::Black => self.black,
            ScreenColor::White => self.white,
            ScreenColor::Grey => self.grey,
            ScreenColor::Red => self.red,
            ScreenColor::Green => self.green,
            ScreenColor::Blue => self.blue,
            ScreenColor::Magenta => self.magenta,
            ScreenColor::Yellow => self.yellow,
            ScreenColor::Cyan => self.cyan,
        }
    }

    /// Red, green and blue of a colour.
    pub fn rgb(&self, c: ScreenColor) -> (r: (u8, u8, u8))
        ensures
            r == self.rgb_spec(c),
    {
        match c {
            ScreenColor::Black => self.black,
            ScreenColor::White => self.white,
            ScreenColor::Grey => self.grey,
            ScreenColor::Red => self.red,
            ScreenColor::Green => self.green,
            ScreenColor::Blue => self.blue,
            ScreenColor::Magenta => self.magenta,
            ScreenColor::Yellow => self.yellow,
            ScreenColor::Cyan => self.cyan,
        }
    }
}

/// What a read of pixel `p` yields.
pub open spec fn pixel_spec<M: Memory>(m: M::V, p: int) -> Result<u8, MemoryError> {
    M::read_spec(m, (SCREEN_START + p) as u16)
}

/// Whether the three frame bytes of pixel `p` show what memory holds for it.
pub open spec fn shows_pixel<M: Memory>(frame: Seq<u8>, m: M::V, palette: Palette, p: int) -> bool {
    match pixel_spec::<M>(m, p) {
        Err(_) => false,
        Ok(byte) => {
            let (r, g, b) = palette.rgb_spec(color_spec(byte));
            frame[3 * p] == r && frame[3 * p + 1] == g && frame[3 * p + 2] == b
        },
    }
}

/// Brings a frame up to date with the picture in memory and tells whether any
/// byte of it changed. The pixels are read in order; at the first refused read
/// the frame is left with the pixels before it up to date and the rest as
/// they were.
pub fn read_screen_state<M: Memory>(
    cpu: &CPU<M>,
    palette: &Palette,
    frame: &mut [u8; FRAME_SIZE],
) -> (r: Result<bool, MemoryError>)
    ensures
        match r {
            Ok(update) => {
                &&& forall|p: int|
                    0 <= p < SCREEN_PIXELS ==> #[trigger] shows_pixel::<M>(
                        final(frame)@,
                        cpu@.memory,
                        *palette,
                        p,
                    )
                &&& update == (final(frame)@ != old(frame)@)
            },
            Err(e) => exists|p: int|
                {
                    &&& 0 <= p < SCREEN_PIXELS
                    &&& #[trigger] pixel_spec::<M>(cpu@.memory, p) == Err::<u8, MemoryError>(e)
                    &&& forall|q: int|
                        0 <= q < p ==> #[trigger] shows_pixel::<M>(
                            final(frame)@,
                            cpu@.memory,
                            *palette,
                            q,
                        )
                    &&& forall|i: int| 3 * p <= i < FRAME_SIZE ==> final(frame)@[i] == old(frame)@[i]
                },
        },
{
    let mut frame_idx: usize = 0;
    let mut update = false;
    let mut pixel: u16 = 0;
    while pixel < 0x0400
        invariant
            pixel <= SCREEN_PIXELS,
            frame_idx == 3 * pixel,
            forall|q: int|
                0 <= q < pixel ==> #[trigger] shows_pixel::<M>(frame@, cpu@.memory, *palette, q),
            forall|i: int| 3 * pixel <= i < FRAME_SIZE ==> frame@[i] == old(frame)@[i],
            update == (frame@ != old(frame)@),
        decreases SCREEN_PIXELS - pixel,
    {
        let ghost before = frame@;
        let color_idx = match cpu.bus.read_from_memory(SCREEN_START + pixel) {
            Ok(byte) => byte,
            Err(e) => {
                assert(pixel_spec::<M>(cpu@.memory, pixel as int) == Err::<u8, MemoryError>(e));
                return Err(e);
            },
        };
        let (b1, b2, b3) = palette.rgb(color(color_idx));
        if frame[frame_idx] != b1 || frame[frame_idx + 1] != b2 || frame[frame_idx + 2] != b3 {
            frame[frame_idx] = b1;
            frame[frame_idx + 1] = b2;
            frame[frame_idx + 2] = b3;
            update = true;
            assert(frame@ != old(frame)@) by {
                if frame@[frame_idx as int] != before[frame_idx as int] {
                    assert(frame@[frame_idx as int] != old(frame)@[frame_idx as int]);
                } else if frame@[frame_idx + 1] != before[frame_idx + 1] {
                    assert(frame@[frame_idx + 1] != old(frame)@[frame_idx + 1]);
                } else {
                    assert(frame@[frame_idx + 2] != old(frame)@[frame_idx + 2]);
                }
            }
        } else {
            assert(frame@ =~= before);
        }
        assert forall|q: int| 0 <= q < pixel + 1 implies #[trigger] shows_pixel::<M>(
            frame@,
            cpu@.memory,
            *palette,
            q,
        ) by {
            if q < pixel {
                assert(shows_pixel::<M>(before, cpu@.memory, *palette, q));
            }
        }
        frame_idx = frame_idx + 3;
        pixel = pixel + 1;
    }
    Ok(update)
}

/// The byte that the guest program reads for a key, where the event is a key
/// that it knows.
pub open spec fn key_code(event: InputEvent) -> Option<u8> {
    match event {
        InputEvent::Up => Some(0x77u8),
        InputEvent::Down => Some(0x73u8),
        InputEvent::Left => Some(0x61u8),
        InputEvent::Right => Some(0x64u8),
        _ => None,
    }
}

/// Hands an input event to the guest program: a known key is written to
/// `INPUT_ADDRESS`, anything else changes nothing. Tells whether the event
/// asks for the program to end.
pub fn handle_user_input<M: Memory>(cpu: &mut CPU<M>, event: InputEvent) -> (r: Result<
    bool,
    MemoryError,
>)
    ensures
        match key_code(event) {
            None => final(cpu)@ == old(cpu)@ && r == Ok::<bool, MemoryError>(
                event == InputEvent::Quit,
            ),
            Some(code) => match M::write_spec(old(cpu)@.memory, INPUT_ADDRESS, code) {
                Ok(m) => final(cpu)@ == (CpuState { memory: m, ..old(cpu)@ })
                    && r == Ok::<bool, MemoryError>(false),
                Err(e) => final(cpu)@ == old(cpu)@ && r == Err::<bool, MemoryError>(e),
            },
        },
{
    let code: u8 = match event {
        InputEvent::Quit => {
            return Ok(true);
        },
        InputEvent::Up => 0x77,
        InputEvent::Down => 0x73,
        InputEvent::Left => 0x61,
        InputEvent::Right => 0x64,
        InputEvent::Other => {
            return Ok(false);
        },
    };
    cpu.bus.write_to_memory(INPUT_ADDRESS, code)?;
    Ok(false)
}

} // verus!
