use vstd::prelude::*;

verus! {

/// The NES system palette: RGB colour of each of the 64 palette indices.
pub open spec fn spec_system_palette(i: u8) -> (u8, u8, u8) {
    match i {
        0 => (0x80u8, 0x80u8, 0x80u8),
        1 => (0x00u8, 0x3Du8, 0xA6u8),
        2 => (0x00u8, 0x12u8, 0xB0u8),
        3 => (0x44u8, 0x00u8, 0x96u8),
        4 => (0xA1u8, 0x00u8, 0x5Eu8),
        5 => (0xC7u8, 0x00u8, 0x28u8),
        6 => (0xBAu8, 0x06u8, 0x00u8),
        7 => (0x8Cu8, 0x17u8, 0x00u8),
        8 => (0x5Cu8, 0x2Fu8, 0x00u8),
        9 => (0x10u8, 0x45u8, 0x00u8),
        10 => (0x05u8, 0x4Au8, 0x00u8),
        11 => (0x00u8, 0x47u8, 0x2Eu8),
        12 => (0x00u8, 0x41u8, 0x66u8),
        13 => (0x00u8, 0x00u8, 0x00u8),
        14 => (0x05u8, 0x05u8, 0x05u8),
        15 => (0x05u8, 0x05u8, 0x05u8),
        16 => (0xC7u8, 0xC7u8, 0xC7u8),
        17 => (0x00u8, 0x77u8, 0xFFu8),
        18 => (0x21u8, 0x55u8, 0xFFu8),
        19 => (0x82u8, 0x37u8, 0xFAu8),
        20 => (0xEBu8, 0x2Fu8, 0xB5u8),
        21 => (0xFFu8, 0x29u8, 0x50u8),
        22 => (0xFFu8, 0x22u8, 0x00u8),
        23 => (0xD6u8, 0x32u8, 0x00u8),
        24 => (0xC4u8, 0x62u8, 0x00u8),
        25 => (0x35u8, 0x80u8, 0x00u8),
        26 => (0x05u8, 0x8Fu8, 0x00u8),
        27 => (0x00u8, 0x8Au8, 0x55u8),
        28 => (0x00u8, 0x99u8, 0xCCu8),
        29 => (0x21u8, 0x21u8, 0x21u8),
        30 => (0x09u8, 0x09u8, 0x09u8),
        31 => (0x09u8, 0x09u8, 0x09u8),
        32 => (0xFFu8, 0xFFu8, 0xFFu8),
        33 => (0x0Fu8, 0xD7u8, 0xFFu8),
        34 => (0x69u8, 0xA2u8, 0xFFu8),
        35 => (0xD4u8, 0x80u8, 0xFFu8),
        36 => (0xFFu8, 0x45u8, 0xF3u8),
        37 => (0xFFu8, 0x61u8, 0x8Bu8),
        38 => (0xFFu8, 0x88u8, 0x33u8),
        39 => (0xFFu8, 0x9Cu8, 0x12u8),
        40 => (0xFAu8, 0xBCu8, 0x20u8),
        41 => (0x9Fu8, 0xE3u8, 0x0Eu8),
        42 => (0x2Bu8, 0xF0u8, 0x35u8),
        43 => (0x0Cu8, 0xF0u8, 0xA4u8),
        44 => (0x05u8, 0xFBu8, 0xFFu8),
        45 => (0x5Eu8, 0x5Eu8, 0x5Eu8),
        46 => (0x0Du8, 0x0Du8, 0x0Du8),
        47 => (0x0Du8, 0x0Du8, 0x0Du8),
        48 => (0xFFu8, 0xFFu8, 0xFFu8),
        49 => (0xA6u8, 0xFCu8, 0xFFu8),
        50 => (0xB3u8, 0xECu8, 0xFFu8),
        51 => (0xDAu8, 0xABu8, 0xEBu8),
        52 => (0xFFu8, 0xA8u8, 0xF9u8),
        53 => (0xFFu8, 0xABu8, 0xB3u8),
        54 => (0xFFu8, 0xD2u8, 0xB0u8),
        55 => (0xFFu8, 0xEFu8, 0xA6u8),
        56 => (0xFFu8, 0xF7u8, 0x9Cu8),
        57 => (0xD7u8, 0xE8u8, 0x95u8),
        58 => (0xA6u8, 0xEDu8, 0xAFu8),
        59 => (0xA2u8, 0xF2u8, 0xDAu8),
        60 => (0x99u8, 0xFFu8, 0xFCu8),
        61 => (0xDDu8, 0xDDu8, 0xDDu8),
        62 => (0x11u8, 0x11u8, 0x11u8),
        _ => (0x11u8, 0x11u8, 0x11u8),
    }
}

/// RGB colour of system palette index `i`.
pub fn system_palette(i: u8) -> (r: (u8, u8, u8))
    requires
        i < 64,
    ensures
        r == spec_system_palette(i),
{
    match i {
        0 => (0x80, 0x80, 0x80),
        1 => (0x00, 0x3D, 0xA6),
        2 => (0x00, 0x12, 0xB0),
        3 => (0x44, 0x00, 0x96),
        4 => (0xA1, 0x00, 0x5E),
        5 => (0xC7, 0x00, 0x28),
        6 => (0xBA, 0x06, 0x00),
        7 => (0x8C, 0x17, 0x00),
        8 => (0x5C, 0x2F, 0x00),
        9 => (0x10, 0x45, 0x00),
        10 => (0x05, 0x4A, 0x00),
        11 => (0x00, 0x47, 0x2E),
        12 => (0x00, 0x41, 0x66),
        13 => (0x00, 0x00, 0x00),
        14 => (0x05, 0x05, 0x05),
        15 => (0x05, 0x05, 0x05),
        16 => (0xC7, 0xC7, 0xC7),
        17 => (0x00, 0x77, 0xFF),
        18 => (0x21, 0x55, 0xFF),
        19 => (0x82, 0x37, 0xFA),
        20 => (0xEB, 0x2F, 0xB5),
        21 => (0xFF, 0x29, 0x50),
        22 => (0xFF, 0x22, 0x00),
        23 => (0xD6, 0x32, 0x00),
        24 => (0xC4, 0x62, 0x00),
        25 => (0x35, 0x80, 0x00),
        26 => (0x05, 0x8F, 0x00),
        27 => (0x00, 0x8A, 0x55),
        28 => (0x00, 0x99, 0xCC),
        29 => (0x21, 0x21, 0x21),
        30 => (0x09, 0x09, 0x09),
        31 => (0x09, 0x09, 0x09),
        32 => (0xFF, 0xFF, 0xFF),
        33 => (0x0F, 0xD7, 0xFF),
        34 => (0x69, 0xA2, 0xFF),
        35 => (0xD4, 0x80, 0xFF),
        36 => (0xFF, 0x45, 0xF3),
        37 => (0xFF, 0x61, 0x8B),
        38 => (0xFF, 0x88, 0x33),
        39 => (0xFF, 0x9C, 0x12),
        40 => (0xFA, 0xBC, 0x20),
        41 => (0x9F, 0xE3, 0x0E),
        42 => (0x2B, 0xF0, 0x35),
        43 => (0x0C, 0xF0, 0xA4),
        44 => (0x05, 0xFB, 0xFF),
        45 => (0x5E, 0x5E, 0x5E),
        46 => (0x0D, 0x0D, 0x0D),
        47 => (0x0D, 0x0D, 0x0D),
        48 => (0xFF, 0xFF, 0xFF),
        49 => (0xA6, 0xFC, 0xFF),
        50 => (0xB3, 0xEC, 0xFF),
        51 => (0xDA, 0xAB, 0xEB),
        52 => (0xFF, 0xA8, 0xF9),
        53 => (0xFF, 0xAB, 0xB3),
        54 => (0xFF, 0xD2, 0xB0),
        55 => (0xFF, 0xEF, 0xA6),
        56 => (0xFF, 0xF7, 0x9C),
        57 => (0xD7, 0xE8, 0x95),
        58 => (0xA6, 0xED, 0xAF),
        59 => (0xA2, 0xF2, 0xDA),
        60 => (0x99, 0xFF, 0xFC),
        61 => (0xDD, 0xDD, 0xDD),
        62 => (0x11, 0x11, 0x11),
        _ => (0x11, 0x11, 0x11),
    }
}

} // verus!
