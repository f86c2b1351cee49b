//! The memory-mapped display convention: a fixed range of memory is read
//! after each step, each byte an index into a fixed color palette, one
//! pixel per address in row-major order.

use vstd::prelude::*;

use crate::cpu::Cpu;

verus! {

/// The first address of the display range.
pub const SCREEN_START: u16 = 0x0200;

/// One past the last address of the display range: 32 by 32 pixels.
pub const SCREEN_END: u16 = 0x0600;

/// The fixed palette: the red, green and blue channels a color index maps
/// to.
pub open spec fn color_spec(byte: u8) -> (u8, u8, u8) {
    match byte {
        0 => (0, 0, 0),  // black
        1 => (255, 255, 255),  // white
        2 | 9 => (92, 92, 92),  // gray
        3 | 10 => (255, 0, 0),  // red
        4 | 11 => (0, 255, 0),  // green
        5 | 12 => (0, 0, 255),  // blue
        6 | 13 => (255, 0, 255),  // magenta
        7 | 14 => (255, 255, 0),  // yellow
        _ => (0, 255, 255),  // cyan
    }
}

/// Map a color index to its red, green and blue channels.
pub fn color(byte: u8) -> (rgb: (u8, u8, u8))
    ensures
        rgb == color_spec(byte),
{
    match byte {
        0 => (0, 0, 0),
        1 => (255, 255, 255),
        2 | 9 => (92, 92, 92),
        3 | 10 => (255, 0, 0),
        4 | 11 => (0, 255, 0),
        5 | 12 => (0, 0, 255),
        6 | 13 => (255, 0, 255),
        7 | 14 => (255, 255, 0),
        _ => (0, 255, 255),
    }
}

/// The display range rendered to red-green-blue-alpha bytes: four channels
/// per pixel, the alpha channel always fully opaque.
pub fn read_screen_state(cpu: &Cpu) -> (frame: Vec<u8>)
    requires
        cpu.wf(),
    ensures
        frame@.len() == 4 * (SCREEN_END - SCREEN_START),
        forall|i: int|
            0 <= i < SCREEN_END - SCREEN_START ==> {
                let rgb = #[trigger] color_spec(cpu@.mem[SCREEN_START + i]);
                &&& frame@[4 * i] == rgb.0
                &&& frame@[4 * i + 1] == rgb.1
                &&& frame@[4 * i + 2] == rgb.2
                &&& frame@[4 * i + 3] == 255u8
            },
{
    let mut frame: Vec<u8> = Vec::new();
    let mut addr: u16 = SCREEN_START;
    while addr < SCREEN_END
        invariant
            cpu.wf(),
            SCREEN_START <= addr <= SCREEN_END,
            frame@.len() == 4 * (addr - SCREEN_START),
            forall|i: int|
                0 <= i < addr - SCREEN_START ==> {
                    let rgb = #[trigger] color_spec(cpu@.mem[SCREEN_START + i]);
                    &&& frame@[4 * i] == rgb.0
                    &&& frame@[4 * i + 1] == rgb.1
                    &&& frame@[4 * i + 2] == rgb.2
                    &&& frame@[4 * i + 3] == 255u8
                },
        decreases SCREEN_END - addr,
    {
        let color_index = cpu.mem_read(addr);
        let (r, g, b) = color(color_index);
        frame.push(r);
        frame.push(g);
        frame.push(b);
        frame.push(255);
        addr = addr + 1;
    }
    frame
}

} // verus!
