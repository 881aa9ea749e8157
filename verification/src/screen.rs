use vstd::prelude::*;

use crate::cpu::Cpu;

verus! {

/// The packed 0x00RRGGBB colour a palette-index byte selects.
pub open spec fn spec_color(byte: u8) -> u32 {
    if byte == 0 {
        0x000000
    } else if byte == 1 {
        0xFFFFFF
    } else if byte == 2 || byte == 9 {
        0xAAAAAA
    } else if byte == 3 || byte == 10 {
        0xFF0000
    } else if byte == 4 || byte == 11 {
        0x00FF00
    } else if byte == 5 || byte == 12 {
        0x0000FF
    } else if byte == 6 || byte == 13 {
        0xFF00FF
    } else if byte == 7 || byte == 14 {
        0xFFCC00
    } else {
        0x00FFCC
    }
}

/// Map a palette-index byte to its packed colour.
pub fn color(byte: u8) -> (r: u32)
    ensures
        r == spec_color(byte),
{
    match byte {
        0 => 0x000000,
        1 => 0xFFFFFF,
        2 | 9 => 0xAAAAAA,
        3 | 10 => 0xFF0000,
        4 | 11 => 0x00FF00,
        5 | 12 => 0x0000FF,
        6 | 13 => 0xFF00FF,
        7 | 14 => 0xFFCC00,
        _ => 0x00FFCC,
    }
}

/// The colour of screen cell `i`: the palette byte in the frame-buffer RAM
/// window at 0x0200-0x05FF, mapped through the palette.
pub open spec fn spec_screen_cell(c: crate::cpu::CpuView, i: int) -> u32 {
    spec_color(c.mem.ram[0x200 + i])
}

/// Poll the 32x32 frame buffer the interpreted program draws into: refresh
/// `frame` with the colour of every cell and report whether anything
/// changed since the last poll.
pub fn read_screen_state(cpu: &Cpu, frame: &mut Vec<u32>) -> (update: bool)
    requires
        cpu.wf(),
        old(frame)@.len() >= 0x400,
    ensures
        final(frame)@.len() == old(frame)@.len(),
        forall|i: int| 0 <= i < 0x400 ==> final(frame)@[i] == spec_screen_cell(cpu@, i),
        forall|i: int| 0x400 <= i < old(frame)@.len() ==> final(frame)@[i] == old(frame)@[i],
        update == !(forall|i: int|
            0 <= i < 0x400 ==> old(frame)@[i] == spec_screen_cell(cpu@, i)),
{
    let mut update = false;
    let mut i: usize = 0x200;
    while i < 0x600
        invariant
            cpu.wf(),
            0x200 <= i <= 0x600,
            frame@.len() == old(frame)@.len() >= 0x400,
            forall|j: int| 0 <= j < i - 0x200 ==> frame@[j] == spec_screen_cell(cpu@, j),
            forall|j: int| i - 0x200 <= j < frame@.len() ==> frame@[j] == old(frame)@[j],
            update == !(forall|j: int|
                0 <= j < i - 0x200 ==> old(frame)@[j] == spec_screen_cell(cpu@, j)),
        decreases 0x600 - i,
    {
        let addr = i as u16;
        proof {
            assert((i as u16) & 0x07ff == i as u16) by (bit_vector)
                requires
                    0x200 <= i < 0x600,
            ;
        }
        let color_idx = match cpu.memory.read(addr) {
            Ok(v) => v,
            Err(_) => 0,
        };
        let c = color(color_idx);
        let init = i - 0x200;
        proof {
            assert(c == spec_screen_cell(cpu@, init as int));
            assert(frame@[init as int] == old(frame)@[init as int]);
        }
        if frame[init] != c {
            proof {
                assert(old(frame)@[init as int] != spec_screen_cell(cpu@, init as int));
            }
            frame[init] = c;
            update = true;
        } else {
            proof {
                assert(old(frame)@[init as int] == spec_screen_cell(cpu@, init as int));
            }
        }
        i = i + 1;
    }
    update
}

} // verus!
