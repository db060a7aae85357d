//! The transliteration table: a fixed mapping from a decoded value to the
//! ASCII emission that stands for it.
//!
//! The table covers the Latin extended, fullwidth and circled letter blocks
//! and the historic ligatures and digraphs; combining diacritical marks are
//! dropped silently, the en dash becomes a literal hyphen, and everything
//! else collapses to a de-duplicated underscore.

use vstd::prelude::*;

verus! {

/// What one decoded value turns into.
#[derive(Debug, Clone, PartialEq, Eq, Structural)]
pub enum Fold {
    /// Emit one ASCII byte and clear the collapse state.
    One(u8),
    /// Emit two ASCII bytes and clear the collapse state.
    Two(u8, u8),
    /// Emit nothing and leave the collapse state as it is: combining
    /// diacritical marks attach to a base letter that was already folded.
    Silent,
    /// Emit a literal hyphen and clear the collapse state: the en dash is
    /// deliberately never merged with adjacent collapse placeholders.
    Hyphen,
    /// Not in the table: collapse to one underscore, de-duplicated against
    /// the previous emission.
    Collapse,
}

/// The table itself. Values outside the table — including values that are
/// no legal Unicode scalar at all — collapse.
pub open spec fn spec_fold_scalar(u: u32) -> Fold {
    if u == 0x2013 {
        Fold::Hyphen
    } else if (0x300 <= u && u <= 0x36F) || (0x1AB0 <= u && u <= 0x1AFF) || (0x1DC0 <= u && u
        <= 0x1DFF) {
        Fold::Silent
    } else {
        match u {
            0x41 | 0x24B6 | 0xFF21 | 0xC0 | 0xC1 | 0xC2 | 0x1EA6 | 0x1EA4 | 0x1EAA | 0x1EA8 | 0xC3
            | 0x100 | 0x102 | 0x1EB0 | 0x1EAE | 0x1EB4 | 0x1EB2 | 0x226 | 0x1E0 | 0xC4 | 0x1DE
            | 0x1EA2 | 0xC5 | 0x1FA | 0x1CD | 0x200 | 0x202 | 0x1EA0 | 0x1EAC | 0x1EB6 | 0x1E00
            | 0x104 | 0x23A | 0x2C6F => Fold::One(65),
            0xA732 => Fold::Two(65, 65),
            0xC6 | 0x1FC | 0x1E2 => Fold::One(65),
            0xA734 => Fold::Two(65, 79),
            0xA736 => Fold::Two(65, 85),
            0xA738 | 0xA73A => Fold::Two(65, 86),
            0xA73C => Fold::Two(65, 89),
            0x42 | 0x24B7 | 0xFF22 | 0x1E02 | 0x1E04 | 0x1E06 | 0x243 | 0x182 | 0x181 => Fold::One(66),
            0x43 | 0x24B8 | 0xFF23 | 0x106 | 0x108 | 0x10A | 0x10C | 0xC7 | 0x1E08 | 0x187 | 0x23B
            | 0xA73E => Fold::One(67),
            0x44 | 0x24B9 | 0xFF24 | 0x1E0A | 0x10E | 0x1E0C | 0x1E10 | 0x1E12 | 0x1E0E | 0x110
            | 0x18B | 0x18A | 0x189 | 0xA779 => Fold::One(68),
            0x1F1 | 0x1C4 => Fold::Two(68, 90),
            0x1F2 | 0x1C5 => Fold::Two(68, 122),
            0x45 | 0x24BA | 0xFF25 | 0xC8 | 0xC9 | 0xCA | 0x1EC0 | 0x1EBE | 0x1EC4 | 0x1EC2
            | 0x1EBC | 0x112 | 0x1E14 | 0x1E16 | 0x114 | 0x116 | 0xCB | 0x1EBA | 0x11A | 0x204
            | 0x206 | 0x1EB8 | 0x1EC6 | 0x228 | 0x1E1C | 0x118 | 0x1E18 | 0x1E1A | 0x190 | 0x18E => Fold::One(69),
            0x46 | 0x24BB | 0xFF26 | 0x1E1E | 0x191 | 0xA77B => Fold::One(70),
            0x47 | 0x24BC | 0xFF27 | 0x1F4 | 0x11C | 0x1E20 | 0x11E | 0x120 | 0x1E6 | 0x122
            | 0x1E4 | 0x193 | 0xA7A0 | 0xA77D | 0xA77E => Fold::One(71),
            0x48 | 0x24BD | 0xFF28 | 0x124 | 0x1E22 | 0x1E26 | 0x21E | 0x1E24 | 0x1E28 | 0x1E2A
            | 0x126 | 0x2C67 | 0x2C75 | 0xA78D => Fold::One(72),
            0x49 | 0x24BE | 0xFF29 | 0xCC | 0xCD | 0xCE | 0x128 | 0x12A | 0x12C | 0x130 | 0xCF
            | 0x1E2E | 0x1EC8 | 0x1CF | 0x208 | 0x20A | 0x1ECA | 0x12E | 0x1E2C | 0x197 => Fold::One(73),
            0x4A | 0x24BF | 0xFF2A | 0x134 | 0x248 => Fold::One(74),
            0x4B | 0x24C0 | 0xFF2B | 0x1E30 | 0x1E8 | 0x1E32 | 0x136 | 0x1E34 | 0x198 | 0x2C69
            | 0xA740 | 0xA742 | 0xA744 | 0xA7A2 => Fold::One(75),
            0x4C | 0x24C1 | 0xFF2C | 0x13F | 0x139 | 0x13D | 0x1E36 | 0x1E38 | 0x13B | 0x1E3C
            | 0x1E3A | 0x141 | 0x23D | 0x2C62 | 0x2C60 | 0xA748 | 0xA746 | 0xA780 => Fold::One(76),
            0x1C7 => Fold::Two(76, 74),
            0x1C8 => Fold::Two(76, 106),
            0x4D | 0x24C2 | 0xFF2D | 0x1E3E | 0x1E40 | 0x1E42 | 0x2C6E | 0x19C => Fold::One(77),
            0x4E | 0x24C3 | 0xFF2E | 0x1F8 | 0x143 | 0xD1 | 0x1E44 | 0x147 | 0x1E46 | 0x145
            | 0x1E4A | 0x1E48 | 0x220 | 0x19D | 0xA790 | 0xA7A4 => Fold::One(78),
            0x1CA => Fold::Two(78, 74),
            0x1CB => Fold::Two(78, 106),
            0x4F | 0x24C4 | 0xFF2F | 0xD2 | 0xD3 | 0xD4 | 0x1ED2 | 0x1ED0 | 0x1ED6 | 0x1ED4 | 0xD5
            | 0x1E4C | 0x22C | 0x1E4E | 0x14C | 0x1E50 | 0x1E52 | 0x14E | 0x22E | 0x230 | 0xD6
            | 0x22A | 0x1ECE | 0x150 | 0x1D1 | 0x20C | 0x20E | 0x1A0 | 0x1EDC | 0x1EDA | 0x1EE0
            | 0x1EDE | 0x1EE2 | 0x1ECC | 0x1ED8 | 0x1EA | 0x1EC | 0xD8 | 0x1FE | 0x186 | 0x19F
            | 0xA74A | 0xA74C => Fold::One(79),
            0x1A2 => Fold::Two(79, 73),
            0xA74E => Fold::Two(79, 79),
            0x222 => Fold::Two(79, 85),
            0x8C | 0x152 => Fold::Two(79, 69),
            0x9C | 0x153 => Fold::Two(111, 101),
            0x50 | 0x24C5 | 0xFF30 | 0x1E54 | 0x1E56 | 0x1A4 | 0x2C63 | 0xA750 | 0xA752 | 0xA754 => Fold::One(80),
            0x51 | 0x24C6 | 0xFF31 | 0xA756 | 0xA758 | 0x24A => Fold::One(81),
            0x52 | 0x24C7 | 0xFF32 | 0x154 | 0x1E58 | 0x158 | 0x210 | 0x212 | 0x1E5A | 0x1E5C
            | 0x156 | 0x1E5E | 0x24C | 0x2C64 | 0xA75A | 0xA7A6 | 0xA782 => Fold::One(82),
            0x53 | 0x24C8 | 0xFF33 | 0x1E9E | 0x15A | 0x1E64 | 0x15C | 0x1E60 | 0x160 | 0x1E66
            | 0x1E62 | 0x1E68 | 0x218 | 0x15E | 0x2C7E | 0xA7A8 | 0xA784 => Fold::One(83),
            0x54 | 0x24C9 | 0xFF34 | 0x1E6A | 0x164 | 0x1E6C | 0x21A | 0x162 | 0x1E70 | 0x1E6E
            | 0x166 | 0x1AC | 0x1AE | 0x23E | 0xA786 => Fold::One(84),
            0xA728 => Fold::Two(84, 90),
            0x55 | 0x24CA | 0xFF35 | 0xD9 | 0xDA | 0xDB | 0x168 | 0x1E78 | 0x16A | 0x1E7A | 0x16C
            | 0xDC | 0x1DB | 0x1D7 | 0x1D5 | 0x1D9 | 0x1EE6 | 0x16E | 0x170 | 0x1D3 | 0x214
            | 0x216 | 0x1AF | 0x1EEA | 0x1EE8 | 0x1EEE | 0x1EEC | 0x1EF0 | 0x1EE4 | 0x1E72 | 0x172
            | 0x1E76 | 0x1E74 | 0x244 => Fold::One(85),
            0x56 | 0x24CB | 0xFF36 | 0x1E7C | 0x1E7E | 0x1B2 | 0xA75E | 0x245 => Fold::One(86),
            0xA760 => Fold::Two(86, 89),
            0x57 | 0x24CC | 0xFF37 | 0x1E80 | 0x1E82 | 0x174 | 0x1E86 | 0x1E84 | 0x1E88 | 0x2C72 => Fold::One(87),
            0x58 | 0x24CD | 0xFF38 | 0x1E8A | 0x1E8C => Fold::One(88),
            0x59 | 0x24CE | 0xFF39 | 0x1EF2 | 0xDD | 0x176 | 0x1EF8 | 0x232 | 0x1E8E | 0x178
            | 0x1EF6 | 0x1EF4 | 0x1B3 | 0x24E | 0x1EFE => Fold::One(89),
            0x5A | 0x24CF | 0xFF3A | 0x179 | 0x1E90 | 0x17B | 0x17D | 0x1E92 | 0x1E94 | 0x1B5
            | 0x224 | 0x2C7F | 0x2C6B | 0xA762 => Fold::One(90),
            0x61 | 0x24D0 | 0xFF41 | 0x1E9A | 0xE0 | 0xE1 | 0xE2 | 0x1EA7 | 0x1EA5 | 0x1EAB
            | 0x1EA9 | 0xE3 | 0x101 | 0x103 | 0x1EB1 | 0x1EAF | 0x1EB5 | 0x1EB3 | 0x227 | 0x1E1
            | 0xE4 | 0x1DF | 0x1EA3 | 0xE5 | 0x1FB | 0x1CE | 0x201 | 0x203 | 0x1EA1 | 0x1EAD
            | 0x1EB7 | 0x1E01 | 0x105 | 0x2C65 | 0x250 => Fold::One(97),
            0xA733 => Fold::Two(97, 97),
            0xE6 | 0x1FD | 0x1E3 => Fold::One(97),
            0xA735 => Fold::Two(97, 111),
            0xA737 => Fold::Two(97, 117),
            0xA739 | 0xA73B => Fold::Two(97, 118),
            0xA73D => Fold::Two(97, 121),
            0x62 | 0x24D1 | 0xFF42 | 0x1E03 | 0x1E05 | 0x1E07 | 0x180 | 0x183 | 0x253 | 0xFE => Fold::One(98),
            0x63 | 0x24D2 | 0xFF43 | 0x107 | 0x109 | 0x10B | 0x10D | 0xE7 | 0x1E09 | 0x188 | 0x23C
            | 0xA73F | 0x2184 => Fold::One(99),
            0x64 | 0x24D3 | 0xFF44 | 0x1E0B | 0x10F | 0x1E0D | 0x1E11 | 0x1E13 | 0x1E0F | 0x111
            | 0x18C | 0x256 | 0x257 | 0xA77A => Fold::One(100),
            0x1F3 | 0x1C6 => Fold::Two(100, 122),
            0x65 | 0x24D4 | 0xFF45 | 0xE8 | 0xE9 | 0xEA | 0x1EC1 | 0x1EBF | 0x1EC5 | 0x1EC3
            | 0x1EBD | 0x113 | 0x1E15 | 0x1E17 | 0x115 | 0x117 | 0xEB | 0x1EBB | 0x11B | 0x205
            | 0x207 | 0x1EB9 | 0x1EC7 | 0x229 | 0x1E1D | 0x119 | 0x1E19 | 0x1E1B | 0x247 | 0x25B
            | 0x1DD => Fold::One(101),
            0x66 | 0x24D5 | 0xFF46 | 0x1E1F | 0x192 | 0xA77C => Fold::One(102),
            0x67 | 0x24D6 | 0xFF47 | 0x1F5 | 0x11D | 0x1E21 | 0x11F | 0x121 | 0x1E7 | 0x123
            | 0x1E5 | 0x260 | 0xA7A1 | 0x1D79 | 0xA77F => Fold::One(103),
            0x68 | 0x24D7 | 0xFF48 | 0x125 | 0x1E23 | 0x1E27 | 0x21F | 0x1E25 | 0x1E29 | 0x1E2B
            | 0x1E96 | 0x127 | 0x2C68 | 0x2C76 | 0x265 => Fold::One(104),
            0x195 => Fold::Two(104, 118),
            0x69 | 0x24D8 | 0xFF49 | 0xEC | 0xED | 0xEE | 0x129 | 0x12B | 0x12D | 0xEF | 0x1E2F
            | 0x1EC9 | 0x1D0 | 0x209 | 0x20B | 0x1ECB | 0x12F | 0x1E2D | 0x268 | 0x131 => Fold::One(105),
            0x6A | 0x24D9 | 0xFF4A | 0x135 | 0x1F0 | 0x249 => Fold::One(106),
            0x6B | 0x24DA | 0xFF4B | 0x1E31 | 0x1E9 | 0x1E33 | 0x137 | 0x1E35 | 0x199 | 0x2C6A
            | 0xA741 | 0xA743 | 0xA745 | 0xA7A3 => Fold::One(107),
            0x6C | 0x24DB | 0xFF4C | 0x140 | 0x13A | 0x13E | 0x1E37 | 0x1E39 | 0x13C | 0x1E3D
            | 0x1E3B | 0x17F | 0x142 | 0x19A | 0x26B | 0x2C61 | 0xA749 | 0xA781 | 0xA747 => Fold::One(108),
            0x1C9 => Fold::Two(108, 106),
            0x6D | 0x24DC | 0xFF4D | 0x1E3F | 0x1E41 | 0x1E43 | 0x271 | 0x26F => Fold::One(109),
            0x6E | 0x24DD | 0xFF4E | 0x1F9 | 0x144 | 0xF1 | 0x1E45 | 0x148 | 0x1E47 | 0x146
            | 0x1E4B | 0x1E49 | 0x19E | 0x272 | 0x149 | 0xA791 | 0xA7A5 => Fold::One(110),
            0x1CC => Fold::Two(110, 106),
            0x6F | 0x24DE | 0xFF4F | 0xF2 | 0xF3 | 0xF4 | 0x1ED3 | 0x1ED1 | 0x1ED7 | 0x1ED5 | 0xF5
            | 0x1E4D | 0x22D | 0x1E4F | 0x14D | 0x1E51 | 0x1E53 | 0x14F | 0x22F | 0x231 | 0xF6
            | 0x22B | 0x1ECF | 0x151 | 0x1D2 | 0x20D | 0x20F | 0x1A1 | 0x1EDD | 0x1EDB | 0x1EE1
            | 0x1EDF | 0x1EE3 | 0x1ECD | 0x1ED9 | 0x1EB | 0x1ED | 0xF8 | 0x1FF | 0x254 | 0xA74B
            | 0xA74D | 0x275 => Fold::One(111),
            0x1A3 => Fold::Two(111, 105),
            0x223 => Fold::Two(111, 117),
            0xA74F => Fold::Two(111, 111),
            0x70 | 0x24DF | 0xFF50 | 0x1E55 | 0x1E57 | 0x1A5 | 0x1D7D | 0xA751 | 0xA753 | 0xA755 => Fold::One(112),
            0x71 | 0x24E0 | 0xFF51 | 0x24B | 0xA757 | 0xA759 => Fold::One(113),
            0x72 | 0x24E1 | 0xFF52 | 0x155 | 0x1E59 | 0x159 | 0x211 | 0x213 | 0x1E5B | 0x1E5D
            | 0x157 | 0x1E5F | 0x24D | 0x27D | 0xA75B | 0xA7A7 | 0xA783 => Fold::One(114),
            0x73 | 0x24E2 | 0xFF53 | 0xDF | 0x15B | 0x1E65 | 0x15D | 0x1E61 | 0x161 | 0x1E67
            | 0x1E63 | 0x1E69 | 0x219 | 0x15F | 0x23F | 0xA7A9 | 0xA785 | 0x1E9B => Fold::One(115),
            0x74 | 0x24E3 | 0xFF54 | 0x1E6B | 0x1E97 | 0x165 | 0x1E6D | 0x21B | 0x163 | 0x1E71
            | 0x1E6F | 0x167 | 0x1AD | 0x288 | 0x2C66 | 0xA787 => Fold::One(116),
            0xA729 => Fold::Two(116, 122),
            0x75 | 0x24E4 | 0xFF55 | 0xF9 | 0xFA | 0xFB | 0x169 | 0x1E79 | 0x16B | 0x1E7B | 0x16D
            | 0xFC | 0x1DC | 0x1D8 | 0x1D6 | 0x1DA | 0x1EE7 | 0x16F | 0x171 | 0x1D4 | 0x215
            | 0x217 | 0x1B0 | 0x1EEB | 0x1EE9 | 0x1EEF | 0x1EED | 0x1EF1 | 0x1EE5 | 0x1E73 | 0x173
            | 0x1E77 | 0x1E75 | 0x289 => Fold::One(117),
            0x76 | 0x24E5 | 0xFF56 | 0x1E7D | 0x1E7F | 0x28B | 0xA75F | 0x28C => Fold::One(118),
            0xA761 => Fold::Two(118, 121),
            0x77 | 0x24E6 | 0xFF57 | 0x1E81 | 0x1E83 | 0x175 | 0x1E87 | 0x1E85 | 0x1E98 | 0x1E89
            | 0x2C73 => Fold::One(119),
            0x78 | 0x24E7 | 0xFF58 | 0x1E8B | 0x1E8D => Fold::One(120),
            0x79 | 0x24E8 | 0xFF59 | 0x1EF3 | 0xFD | 0x177 | 0x1EF9 | 0x233 | 0x1E8F | 0xFF
            | 0x1EF7 | 0x1E99 | 0x1EF5 | 0x1B4 | 0x24F | 0x1EFF => Fold::One(121),
            0x7A | 0x24E9 | 0xFF5A | 0x17A | 0x1E91 | 0x17C | 0x17E | 0x1E93 | 0x1E95 | 0x1B6
            | 0x225 | 0x240 | 0x2C6C | 0xA763 => Fold::One(122),
            _ => Fold::Collapse,
        }
    }
}

/// Look one decoded value up in the table.
#[verifier::rlimit(100)]
pub fn fold_scalar(u: u32) -> (f: Fold)
    ensures
        f == spec_fold_scalar(u),
{
    if u == 0x2013 {
        Fold::Hyphen
    } else if (0x300 <= u && u <= 0x36F) || (0x1AB0 <= u && u <= 0x1AFF) || (0x1DC0 <= u && u
        <= 0x1DFF) {
        Fold::Silent
    } else {
        match u {
            0x41 | 0x24B6 | 0xFF21 | 0xC0 | 0xC1 | 0xC2 | 0x1EA6 | 0x1EA4 | 0x1EAA | 0x1EA8 | 0xC3
            | 0x100 | 0x102 | 0x1EB0 | 0x1EAE | 0x1EB4 | 0x1EB2 | 0x226 | 0x1E0 | 0xC4 | 0x1DE
            | 0x1EA2 | 0xC5 | 0x1FA | 0x1CD | 0x200 | 0x202 | 0x1EA0 | 0x1EAC | 0x1EB6 | 0x1E00
            | 0x104 | 0x23A | 0x2C6F => Fold::One(65),
            0xA732 => Fold::Two(65, 65),
            0xC6 | 0x1FC | 0x1E2 => Fold::One(65),
            0xA734 => Fold::Two(65, 79),
            0xA736 => Fold::Two(65, 85),
            0xA738 | 0xA73A => Fold::Two(65, 86),
            0xA73C => Fold::Two(65, 89),
            0x42 | 0x24B7 | 0xFF22 | 0x1E02 | 0x1E04 | 0x1E06 | 0x243 | 0x182 | 0x181 => Fold::One(66),
            0x43 | 0x24B8 | 0xFF23 | 0x106 | 0x108 | 0x10A | 0x10C | 0xC7 | 0x1E08 | 0x187 | 0x23B
            | 0xA73E => Fold::One(67),
            0x44 | 0x24B9 | 0xFF24 | 0x1E0A | 0x10E | 0x1E0C | 0x1E10 | 0x1E12 | 0x1E0E | 0x110
            | 0x18B | 0x18A | 0x189 | 0xA779 => Fold::One(68),
            0x1F1 | 0x1C4 => Fold::Two(68, 90),
            0x1F2 | 0x1C5 => Fold::Two(68, 122),
            0x45 | 0x24BA | 0xFF25 | 0xC8 | 0xC9 | 0xCA | 0x1EC0 | 0x1EBE | 0x1EC4 | 0x1EC2
            | 0x1EBC | 0x112 | 0x1E14 | 0x1E16 | 0x114 | 0x116 | 0xCB | 0x1EBA | 0x11A | 0x204
            | 0x206 | 0x1EB8 | 0x1EC6 | 0x228 | 0x1E1C | 0x118 | 0x1E18 | 0x1E1A | 0x190 | 0x18E => Fold::One(69),
            0x46 | 0x24BB | 0xFF26 | 0x1E1E | 0x191 | 0xA77B => Fold::One(70),
            0x47 | 0x24BC | 0xFF27 | 0x1F4 | 0x11C | 0x1E20 | 0x11E | 0x120 | 0x1E6 | 0x122
            | 0x1E4 | 0x193 | 0xA7A0 | 0xA77D | 0xA77E => Fold::One(71),
            0x48 | 0x24BD | 0xFF28 | 0x124 | 0x1E22 | 0x1E26 | 0x21E | 0x1E24 | 0x1E28 | 0x1E2A
            | 0x126 | 0x2C67 | 0x2C75 | 0xA78D => Fold::One(72),
            0x49 | 0x24BE | 0xFF29 | 0xCC | 0xCD | 0xCE | 0x128 | 0x12A | 0x12C | 0x130 | 0xCF
            | 0x1E2E | 0x1EC8 | 0x1CF | 0x208 | 0x20A | 0x1ECA | 0x12E | 0x1E2C | 0x197 => Fold::One(73),
            0x4A | 0x24BF | 0xFF2A | 0x134 | 0x248 => Fold::One(74),
            0x4B | 0x24C0 | 0xFF2B | 0x1E30 | 0x1E8 | 0x1E32 | 0x136 | 0x1E34 | 0x198 | 0x2C69
            | 0xA740 | 0xA742 | 0xA744 | 0xA7A2 => Fold::One(75),
            0x4C | 0x24C1 | 0xFF2C | 0x13F | 0x139 | 0x13D | 0x1E36 | 0x1E38 | 0x13B | 0x1E3C
            | 0x1E3A | 0x141 | 0x23D | 0x2C62 | 0x2C60 | 0xA748 | 0xA746 | 0xA780 => Fold::One(76),
            0x1C7 => Fold::Two(76, 74),
            0x1C8 => Fold::Two(76, 106),
            0x4D | 0x24C2 | 0xFF2D | 0x1E3E | 0x1E40 | 0x1E42 | 0x2C6E | 0x19C => Fold::One(77),
            0x4E | 0x24C3 | 0xFF2E | 0x1F8 | 0x143 | 0xD1 | 0x1E44 | 0x147 | 0x1E46 | 0x145
            | 0x1E4A | 0x1E48 | 0x220 | 0x19D | 0xA790 | 0xA7A4 => Fold::One(78),
            0x1CA => Fold::Two(78, 74),
            0x1CB => Fold::Two(78, 106),
            0x4F | 0x24C4 | 0xFF2F | 0xD2 | 0xD3 | 0xD4 | 0x1ED2 | 0x1ED0 | 0x1ED6 | 0x1ED4 | 0xD5
            | 0x1E4C | 0x22C | 0x1E4E | 0x14C | 0x1E50 | 0x1E52 | 0x14E | 0x22E | 0x230 | 0xD6
            | 0x22A | 0x1ECE | 0x150 | 0x1D1 | 0x20C | 0x20E | 0x1A0 | 0x1EDC | 0x1EDA | 0x1EE0
            | 0x1EDE | 0x1EE2 | 0x1ECC | 0x1ED8 | 0x1EA | 0x1EC | 0xD8 | 0x1FE | 0x186 | 0x19F
            | 0xA74A | 0xA74C => Fold::One(79),
            0x1A2 => Fold::Two(79, 73),
            0xA74E => Fold::Two(79, 79),
            0x222 => Fold::Two(79, 85),
            0x8C | 0x152 => Fold::Two(79, 69),
            0x9C | 0x153 => Fold::Two(111, 101),
            0x50 | 0x24C5 | 0xFF30 | 0x1E54 | 0x1E56 | 0x1A4 | 0x2C63 | 0xA750 | 0xA752 | 0xA754 => Fold::One(80),
            0x51 | 0x24C6 | 0xFF31 | 0xA756 | 0xA758 | 0x24A => Fold::One(81),
            0x52 | 0x24C7 | 0xFF32 | 0x154 | 0x1E58 | 0x158 | 0x210 | 0x212 | 0x1E5A | 0x1E5C
            | 0x156 | 0x1E5E | 0x24C | 0x2C64 | 0xA75A | 0xA7A6 | 0xA782 => Fold::One(82),
            0x53 | 0x24C8 | 0xFF33 | 0x1E9E | 0x15A | 0x1E64 | 0x15C | 0x1E60 | 0x160 | 0x1E66
            | 0x1E62 | 0x1E68 | 0x218 | 0x15E | 0x2C7E | 0xA7A8 | 0xA784 => Fold::One(83),
            0x54 | 0x24C9 | 0xFF34 | 0x1E6A | 0x164 | 0x1E6C | 0x21A | 0x162 | 0x1E70 | 0x1E6E
            | 0x166 | 0x1AC | 0x1AE | 0x23E | 0xA786 => Fold::One(84),
            0xA728 => Fold::Two(84, 90),
            0x55 | 0x24CA | 0xFF35 | 0xD9 | 0xDA | 0xDB | 0x168 | 0x1E78 | 0x16A | 0x1E7A | 0x16C
            | 0xDC | 0x1DB | 0x1D7 | 0x1D5 | 0x1D9 | 0x1EE6 | 0x16E | 0x170 | 0x1D3 | 0x214
            | 0x216 | 0x1AF | 0x1EEA | 0x1EE8 | 0x1EEE | 0x1EEC | 0x1EF0 | 0x1EE4 | 0x1E72 | 0x172
            | 0x1E76 | 0x1E74 | 0x244 => Fold::One(85),
            0x56 | 0x24CB | 0xFF36 | 0x1E7C | 0x1E7E | 0x1B2 | 0xA75E | 0x245 => Fold::One(86),
            0xA760 => Fold::Two(86, 89),
            0x57 | 0x24CC | 0xFF37 | 0x1E80 | 0x1E82 | 0x174 | 0x1E86 | 0x1E84 | 0x1E88 | 0x2C72 => Fold::One(87),
            0x58 | 0x24CD | 0xFF38 | 0x1E8A | 0x1E8C => Fold::One(88),
            0x59 | 0x24CE | 0xFF39 | 0x1EF2 | 0xDD | 0x176 | 0x1EF8 | 0x232 | 0x1E8E | 0x178
            | 0x1EF6 | 0x1EF4 | 0x1B3 | 0x24E | 0x1EFE => Fold::One(89),
            0x5A | 0x24CF | 0xFF3A | 0x179 | 0x1E90 | 0x17B | 0x17D | 0x1E92 | 0x1E94 | 0x1B5
            | 0x224 | 0x2C7F | 0x2C6B | 0xA762 => Fold::One(90),
            0x61 | 0x24D0 | 0xFF41 | 0x1E9A | 0xE0 | 0xE1 | 0xE2 | 0x1EA7 | 0x1EA5 | 0x1EAB
            | 0x1EA9 | 0xE3 | 0x101 | 0x103 | 0x1EB1 | 0x1EAF | 0x1EB5 | 0x1EB3 | 0x227 | 0x1E1
            | 0xE4 | 0x1DF | 0x1EA3 | 0xE5 | 0x1FB | 0x1CE | 0x201 | 0x203 | 0x1EA1 | 0x1EAD
            | 0x1EB7 | 0x1E01 | 0x105 | 0x2C65 | 0x250 => Fold::One(97),
            0xA733 => Fold::Two(97, 97),
            0xE6 | 0x1FD | 0x1E3 => Fold::One(97),
            0xA735 => Fold::Two(97, 111),
            0xA737 => Fold::Two(97, 117),
            0xA739 | 0xA73B => Fold::Two(97, 118),
            0xA73D => Fold::Two(97, 121),
            0x62 | 0x24D1 | 0xFF42 | 0x1E03 | 0x1E05 | 0x1E07 | 0x180 | 0x183 | 0x253 | 0xFE => Fold::One(98),
            0x63 | 0x24D2 | 0xFF43 | 0x107 | 0x109 | 0x10B | 0x10D | 0xE7 | 0x1E09 | 0x188 | 0x23C
            | 0xA73F | 0x2184 => Fold::One(99),
            0x64 | 0x24D3 | 0xFF44 | 0x1E0B | 0x10F | 0x1E0D | 0x1E11 | 0x1E13 | 0x1E0F | 0x111
            | 0x18C | 0x256 | 0x257 | 0xA77A => Fold::One(100),
            0x1F3 | 0x1C6 => Fold::Two(100, 122),
            0x65 | 0x24D4 | 0xFF45 | 0xE8 | 0xE9 | 0xEA | 0x1EC1 | 0x1EBF | 0x1EC5 | 0x1EC3
            | 0x1EBD | 0x113 | 0x1E15 | 0x1E17 | 0x115 | 0x117 | 0xEB | 0x1EBB | 0x11B | 0x205
            | 0x207 | 0x1EB9 | 0x1EC7 | 0x229 | 0x1E1D | 0x119 | 0x1E19 | 0x1E1B | 0x247 | 0x25B
            | 0x1DD => Fold::One(101),
            0x66 | 0x24D5 | 0xFF46 | 0x1E1F | 0x192 | 0xA77C => Fold::One(102),
            0x67 | 0x24D6 | 0xFF47 | 0x1F5 | 0x11D | 0x1E21 | 0x11F | 0x121 | 0x1E7 | 0x123
            | 0x1E5 | 0x260 | 0xA7A1 | 0x1D79 | 0xA77F => Fold::One(103),
            0x68 | 0x24D7 | 0xFF48 | 0x125 | 0x1E23 | 0x1E27 | 0x21F | 0x1E25 | 0x1E29 | 0x1E2B
            | 0x1E96 | 0x127 | 0x2C68 | 0x2C76 | 0x265 => Fold::One(104),
            0x195 => Fold::Two(104, 118),
            0x69 | 0x24D8 | 0xFF49 | 0xEC | 0xED | 0xEE | 0x129 | 0x12B | 0x12D | 0xEF | 0x1E2F
            | 0x1EC9 | 0x1D0 | 0x209 | 0x20B | 0x1ECB | 0x12F | 0x1E2D | 0x268 | 0x131 => Fold::One(105),
            0x6A | 0x24D9 | 0xFF4A | 0x135 | 0x1F0 | 0x249 => Fold::One(106),
            0x6B | 0x24DA | 0xFF4B | 0x1E31 | 0x1E9 | 0x1E33 | 0x137 | 0x1E35 | 0x199 | 0x2C6A
            | 0xA741 | 0xA743 | 0xA745 | 0xA7A3 => Fold::One(107),
            0x6C | 0x24DB | 0xFF4C | 0x140 | 0x13A | 0x13E | 0x1E37 | 0x1E39 | 0x13C | 0x1E3D
            | 0x1E3B | 0x17F | 0x142 | 0x19A | 0x26B | 0x2C61 | 0xA749 | 0xA781 | 0xA747 => Fold::One(108),
            0x1C9 => Fold::Two(108, 106),
            0x6D | 0x24DC | 0xFF4D | 0x1E3F | 0x1E41 | 0x1E43 | 0x271 | 0x26F => Fold::One(109),
            0x6E | 0x24DD | 0xFF4E | 0x1F9 | 0x144 | 0xF1 | 0x1E45 | 0x148 | 0x1E47 | 0x146
            | 0x1E4B | 0x1E49 | 0x19E | 0x272 | 0x149 | 0xA791 | 0xA7A5 => Fold::One(110),
            0x1CC => Fold::Two(110, 106),
            0x6F | 0x24DE | 0xFF4F | 0xF2 | 0xF3 | 0xF4 | 0x1ED3 | 0x1ED1 | 0x1ED7 | 0x1ED5 | 0xF5
            | 0x1E4D | 0x22D | 0x1E4F | 0x14D | 0x1E51 | 0x1E53 | 0x14F | 0x22F | 0x231 | 0xF6
            | 0x22B | 0x1ECF | 0x151 | 0x1D2 | 0x20D | 0x20F | 0x1A1 | 0x1EDD | 0x1EDB | 0x1EE1
            | 0x1EDF | 0x1EE3 | 0x1ECD | 0x1ED9 | 0x1EB | 0x1ED | 0xF8 | 0x1FF | 0x254 | 0xA74B
            | 0xA74D | 0x275 => Fold::One(111),
            0x1A3 => Fold::Two(111, 105),
            0x223 => Fold::Two(111, 117),
            0xA74F => Fold::Two(111, 111),
            0x70 | 0x24DF | 0xFF50 | 0x1E55 | 0x1E57 | 0x1A5 | 0x1D7D | 0xA751 | 0xA753 | 0xA755 => Fold::One(112),
            0x71 | 0x24E0 | 0xFF51 | 0x24B | 0xA757 | 0xA759 => Fold::One(113),
            0x72 | 0x24E1 | 0xFF52 | 0x155 | 0x1E59 | 0x159 | 0x211 | 0x213 | 0x1E5B | 0x1E5D
            | 0x157 | 0x1E5F | 0x24D | 0x27D | 0xA75B | 0xA7A7 | 0xA783 => Fold::One(114),
            0x73 | 0x24E2 | 0xFF53 | 0xDF | 0x15B | 0x1E65 | 0x15D | 0x1E61 | 0x161 | 0x1E67
            | 0x1E63 | 0x1E69 | 0x219 | 0x15F | 0x23F | 0xA7A9 | 0xA785 | 0x1E9B => Fold::One(115),
            0x74 | 0x24E3 | 0xFF54 | 0x1E6B | 0x1E97 | 0x165 | 0x1E6D | 0x21B | 0x163 | 0x1E71
            | 0x1E6F | 0x167 | 0x1AD | 0x288 | 0x2C66 | 0xA787 => Fold::One(116),
            0xA729 => Fold::Two(116, 122),
            0x75 | 0x24E4 | 0xFF55 | 0xF9 | 0xFA | 0xFB | 0x169 | 0x1E79 | 0x16B | 0x1E7B | 0x16D
            | 0xFC | 0x1DC | 0x1D8 | 0x1D6 | 0x1DA | 0x1EE7 | 0x16F | 0x171 | 0x1D4 | 0x215
            | 0x217 | 0x1B0 | 0x1EEB | 0x1EE9 | 0x1EEF | 0x1EED | 0x1EF1 | 0x1EE5 | 0x1E73 | 0x173
            | 0x1E77 | 0x1E75 | 0x289 => Fold::One(117),
            0x76 | 0x24E5 | 0xFF56 | 0x1E7D | 0x1E7F | 0x28B | 0xA75F | 0x28C => Fold::One(118),
            0xA761 => Fold::Two(118, 121),
            0x77 | 0x24E6 | 0xFF57 | 0x1E81 | 0x1E83 | 0x175 | 0x1E87 | 0x1E85 | 0x1E98 | 0x1E89
            | 0x2C73 => Fold::One(119),
            0x78 | 0x24E7 | 0xFF58 | 0x1E8B | 0x1E8D => Fold::One(120),
            0x79 | 0x24E8 | 0xFF59 | 0x1EF3 | 0xFD | 0x177 | 0x1EF9 | 0x233 | 0x1E8F | 0xFF
            | 0x1EF7 | 0x1E99 | 0x1EF5 | 0x1B4 | 0x24F | 0x1EFF => Fold::One(121),
            0x7A | 0x24E9 | 0xFF5A | 0x17A | 0x1E91 | 0x17C | 0x17E | 0x1E93 | 0x1E95 | 0x1B6
            | 0x225 | 0x240 | 0x2C6C | 0xA763 => Fold::One(122),
            _ => Fold::Collapse,
        }
    }
}

/// A plain ASCII letter.
pub open spec fn spec_is_ascii_letter(b: u8) -> bool {
    (65 <= b && b <= 90) || (97 <= b && b <= 122)
}

/// Every byte the table emits literally is a plain ASCII letter — in
/// particular never the collapse placeholder; the hyphen-like action is
/// kept apart from the placeholder by construction.
#[verifier::rlimit(100)]
pub proof fn lemma_fold_emits_letters(u: u32)
    ensures
        spec_fold_scalar(u) matches Fold::One(x) ==> spec_is_ascii_letter(x),
        spec_fold_scalar(u) matches Fold::Two(x, y) ==> spec_is_ascii_letter(x)
            && spec_is_ascii_letter(y),
{
}

} // verus!
