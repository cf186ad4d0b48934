use vstd::prelude::*;

verus! {

/// The red, green and blue levels of each of the NES's 64 colours, by palette
/// index (0 to 63).
#[verifier::opaque]
pub open spec fn palette_rgb(index: u8) -> (u8, u8, u8) {
    match index % 64 {
        0x00 => (84u8, 84u8, 84u8),
        0x01 => (0u8, 30u8, 116u8),
        0x02 => (8u8, 16u8, 144u8),
        0x03 => (48u8, 0u8, 136u8),
        0x04 => (68u8, 0u8, 100u8),
        0x05 => (92u8, 0u8, 48u8),
        0x06 => (84u8, 4u8, 0u8),
        0x07 => (60u8, 24u8, 0u8),
        0x08 => (32u8, 42u8, 0u8),
        0x09 => (8u8, 58u8, 0u8),
        0x0a => (0u8, 64u8, 0u8),
        0x0b => (0u8, 60u8, 0u8),
        0x0c => (0u8, 50u8, 60u8),
        0x0d => (0u8, 0u8, 0u8),
        0x0e => (0u8, 0u8, 0u8),
        0x0f => (0u8, 0u8, 0u8),
        0x10 => (152u8, 150u8, 152u8),
        0x11 => (8u8, 76u8, 196u8),
        0x12 => (48u8, 50u8, 236u8),
        0x13 => (92u8, 30u8, 228u8),
        0x14 => (136u8, 20u8, 176u8),
        0x15 => (160u8, 20u8, 100u8),
        0x16 => (152u8, 34u8, 32u8),
        0x17 => (120u8, 60u8, 0u8),
        0x18 => (84u8, 90u8, 0u8),
        0x19 => (40u8, 114u8, 0u8),
        0x1a => (8u8, 124u8, 0u8),
        0x1b => (0u8, 118u8, 40u8),
        0x1c => (0u8, 102u8, 120u8),
        0x1d => (0u8, 0u8, 0u8),
        0x1e => (0u8, 0u8, 0u8),
        0x1f => (0u8, 0u8, 0u8),
        0x20 => (236u8, 238u8, 236u8),
        0x21 => (76u8, 154u8, 236u8),
        0x22 => (120u8, 124u8, 236u8),
        0x23 => (176u8, 98u8, 236u8),
        0x24 => (228u8, 84u8, 236u8),
        0x25 => (236u8, 88u8, 180u8),
        0x26 => (236u8, 106u8, 100u8),
        0x27 => (212u8, 136u8, 32u8),
        0x28 => (160u8, 170u8, 0u8),
        0x29 => (116u8, 196u8, 0u8),
        0x2a => (76u8, 208u8, 32u8),
        0x2b => (56u8, 204u8, 108u8),
        0x2c => (56u8, 180u8, 204u8),
        0x2d => (60u8, 60u8, 60u8),
        0x2e => (0u8, 0u8, 0u8),
        0x2f => (0u8, 0u8, 0u8),
        0x30 => (236u8, 238u8, 236u8),
        0x31 => (168u8, 204u8, 236u8),
        0x32 => (188u8, 188u8, 236u8),
        0x33 => (212u8, 178u8, 236u8),
        0x34 => (236u8, 174u8, 236u8),
        0x35 => (236u8, 174u8, 212u8),
        0x36 => (236u8, 180u8, 176u8),
        0x37 => (228u8, 196u8, 144u8),
        0x38 => (204u8, 210u8, 120u8),
        0x39 => (180u8, 222u8, 120u8),
        0x3a => (168u8, 226u8, 144u8),
        0x3b => (152u8, 226u8, 180u8),
        0x3c => (160u8, 214u8, 228u8),
        0x3d => (160u8, 162u8, 160u8),
        0x3e => (0u8, 0u8, 0u8),
        _ => (0u8, 0u8, 0u8),
    }
}

/// The red, green and blue levels of palette colour `index` modulo 64.
pub fn palette_color(index: u8) -> (r: (u8, u8, u8))
    ensures
        r == palette_rgb(index),
{
    reveal(palette_rgb);
    match index % 64 {
        0x00 => (84, 84, 84),
        0x01 => (0, 30, 116),
        0x02 => (8, 16, 144),
        0x03 => (48, 0, 136),
        0x04 => (68, 0, 100),
        0x05 => (92, 0, 48),
        0x06 => (84, 4, 0),
        0x07 => (60, 24, 0),
        0x08 => (32, 42, 0),
        0x09 => (8, 58, 0),
        0x0a => (0, 64, 0),
        0x0b => (0, 60, 0),
        0x0c => (0, 50, 60),
        0x0d => (0, 0, 0),
        0x0e => (0, 0, 0),
        0x0f => (0, 0, 0),
        0x10 => (152, 150, 152),
        0x11 => (8, 76, 196),
        0x12 => (48, 50, 236),
        0x13 => (92, 30, 228),
        0x14 => (136, 20, 176),
        0x15 => (160, 20, 100),
        0x16 => (152, 34, 32),
        0x17 => (120, 60, 0),
        0x18 => (84, 90, 0),
        0x19 => (40, 114, 0),
        0x1a => (8, 124, 0),
        0x1b => (0, 118, 40),
        0x1c => (0, 102, 120),
        0x1d => (0, 0, 0),
        0x1e => (0, 0, 0),
        0x1f => (0, 0, 0),
        0x20 => (236, 238, 236),
        0x21 => (76, 154, 236),
        0x22 => (120, 124, 236),
        0x23 => (176, 98, 236),
        0x24 => (228, 84, 236),
        0x25 => (236, 88, 180),
        0x26 => (236, 106, 100),
        0x27 => (212, 136, 32),
        0x28 => (160, 170, 0),
        0x29 => (116, 196, 0),
        0x2a => (76, 208, 32),
        0x2b => (56, 204, 108),
        0x2c => (56, 180, 204),
        0x2d => (60, 60, 60),
        0x2e => (0, 0, 0),
        0x2f => (0, 0, 0),
        0x30 => (236, 238, 236),
        0x31 => (168, 204, 236),
        0x32 => (188, 188, 236),
        0x33 => (212, 178, 236),
        0x34 => (236, 174, 236),
        0x35 => (236, 174, 212),
        0x36 => (236, 180, 176),
        0x37 => (228, 196, 144),
        0x38 => (204, 210, 120),
        0x39 => (180, 222, 120),
        0x3a => (168, 226, 144),
        0x3b => (152, 226, 180),
        0x3c => (160, 214, 228),
        0x3d => (160, 162, 160),
        0x3e => (0, 0, 0),
        _ => (0, 0, 0),
    }
}

} // verus!
