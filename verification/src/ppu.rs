//! Picture-processing-unit register layout. The CPU core routes accesses to
//! these registers as an unimplemented bus region; the layout is kept here
//! for the device emulation that would claim that region.

use vstd::prelude::*;

verus! {

/// The memory-mapped PPU register file at $2000-$2007 (plus OAM DMA).
pub struct PpuRegisters {
    pub ppuctrl: PpuCtrlRegister,
    pub ppumask: PpuMaskRegister,
    pub ppstatus: PpuStatusRegister,
    pub oamaddr: u8,
    pub oamdata: u8,
    pub ppuscroll: u8,
    pub ppuaddr: u8,
    pub ppudata: u8,
    pub oamdma: u8,
}

/// PPUCTRL ($2000): rendering control bits.
pub struct PpuCtrlRegister {
    pub nmi_enabled: bool,
    pub master_slave_select: bool,
    pub sprite_size: (u8, u8),
    pub background_pattern_address: u16,
    pub vram_incrementer_select: bool,
    pub base_nametable_address: u16,
}

/// PPUMASK ($2001): colour and visibility control bits.
pub struct PpuMaskRegister {
    pub greyscale: bool,
    pub show_background_leftmost_pixels: bool,
    pub show_sprites_leftmost_pixels: bool,
    pub show_background: bool,
    pub show_sprites: bool,
    pub emphasize_red: bool,
    pub emphasize_green: bool,
    pub emphasize_blue: bool,
}

/// PPUSTATUS ($2002): rendering status bits.
pub struct PpuStatusRegister {
    pub recent_least_significant_bits: u8,
    pub sprite_overflow: bool,
    pub sprite_hit: bool,
    pub vertical_blank_started: bool,
}

} // verus!
