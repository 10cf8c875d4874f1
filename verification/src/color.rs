//! Color correction: perceptual inputs to linear hardware drive values.
//!
//! Two distinct curves are deliberately kept apart. `degamma` is a color
//! correction: the standard two-segment sRGB inverse transfer function
//! (linear below a normalized input of 0.04045, the power law
//! ((v + 0.055) / 1.055)^2.4 above), re-quantized to 0..=255 with
//! round-half-up. `apply_brightness` is a dimming control: a power-law
//! (p/100)^2.8 mapping from perceived brightness percentage to a linear
//! duty-cycle multiplier. Neither may substitute for the other.
//!
//! Both curves are tabulated here, already quantized, so that every value
//! the hardware can be driven with is pinned exactly; the brightness curve
//! is held in 16.16 fixed point before it scales a channel.

use vstd::prelude::*;

verus! {

/// Fixed-point scale of the brightness multiplier table: 65536 means 1.0.
pub const BRIGHT_ONE: u32 = 65536;

/// The tabulated sRGB inverse transfer function, quantized round-half-up.
pub open spec fn degamma_spec(v: u8) -> u8 {
    match v {
        0 => 0,
        1 => 0,
        2 => 0,
        3 => 0,
        4 => 0,
        5 => 0,
        6 => 0,
        7 => 1,
        8 => 1,
        9 => 1,
        10 => 1,
        11 => 1,
        12 => 1,
        13 => 1,
        14 => 1,
        15 => 1,
        16 => 1,
        17 => 1,
        18 => 2,
        19 => 2,
        20 => 2,
        21 => 2,
        22 => 2,
        23 => 2,
        24 => 2,
        25 => 2,
        26 => 3,
        27 => 3,
        28 => 3,
        29 => 3,
        30 => 3,
        31 => 3,
        32 => 4,
        33 => 4,
        34 => 4,
        35 => 4,
        36 => 4,
        37 => 5,
        38 => 5,
        39 => 5,
        40 => 5,
        41 => 6,
        42 => 6,
        43 => 6,
        44 => 6,
        45 => 7,
        46 => 7,
        47 => 7,
        48 => 8,
        49 => 8,
        50 => 8,
        51 => 8,
        52 => 9,
        53 => 9,
        54 => 9,
        55 => 10,
        56 => 10,
        57 => 10,
        58 => 11,
        59 => 11,
        60 => 12,
        61 => 12,
        62 => 12,
        63 => 13,
        64 => 13,
        65 => 13,
        66 => 14,
        67 => 14,
        68 => 15,
        69 => 15,
        70 => 16,
        71 => 16,
        72 => 17,
        73 => 17,
        74 => 17,
        75 => 18,
        76 => 18,
        77 => 19,
        78 => 19,
        79 => 20,
        80 => 20,
        81 => 21,
        82 => 22,
        83 => 22,
        84 => 23,
        85 => 23,
        86 => 24,
        87 => 24,
        88 => 25,
        89 => 25,
        90 => 26,
        91 => 27,
        92 => 27,
        93 => 28,
        94 => 29,
        95 => 29,
        96 => 30,
        97 => 30,
        98 => 31,
        99 => 32,
        100 => 32,
        101 => 33,
        102 => 34,
        103 => 35,
        104 => 35,
        105 => 36,
        106 => 37,
        107 => 37,
        108 => 38,
        109 => 39,
        110 => 40,
        111 => 41,
        112 => 41,
        113 => 42,
        114 => 43,
        115 => 44,
        116 => 45,
        117 => 45,
        118 => 46,
        119 => 47,
        120 => 48,
        121 => 49,
        122 => 50,
        123 => 51,
        124 => 51,
        125 => 52,
        126 => 53,
        127 => 54,
        128 => 55,
        129 => 56,
        130 => 57,
        131 => 58,
        132 => 59,
        133 => 60,
        134 => 61,
        135 => 62,
        136 => 63,
        137 => 64,
        138 => 65,
        139 => 66,
        140 => 67,
        141 => 68,
        142 => 69,
        143 => 70,
        144 => 71,
        145 => 72,
        146 => 73,
        147 => 74,
        148 => 76,
        149 => 77,
        150 => 78,
        151 => 79,
        152 => 80,
        153 => 81,
        154 => 82,
        155 => 84,
        156 => 85,
        157 => 86,
        158 => 87,
        159 => 88,
        160 => 90,
        161 => 91,
        162 => 92,
        163 => 93,
        164 => 95,
        165 => 96,
        166 => 97,
        167 => 99,
        168 => 100,
        169 => 101,
        170 => 103,
        171 => 104,
        172 => 105,
        173 => 107,
        174 => 108,
        175 => 109,
        176 => 111,
        177 => 112,
        178 => 114,
        179 => 115,
        180 => 116,
        181 => 118,
        182 => 119,
        183 => 121,
        184 => 122,
        185 => 124,
        186 => 125,
        187 => 127,
        188 => 128,
        189 => 130,
        190 => 131,
        191 => 133,
        192 => 134,
        193 => 136,
        194 => 138,
        195 => 139,
        196 => 141,
        197 => 142,
        198 => 144,
        199 => 146,
        200 => 147,
        201 => 149,
        202 => 151,
        203 => 152,
        204 => 154,
        205 => 156,
        206 => 157,
        207 => 159,
        208 => 161,
        209 => 163,
        210 => 164,
        211 => 166,
        212 => 168,
        213 => 170,
        214 => 171,
        215 => 173,
        216 => 175,
        217 => 177,
        218 => 179,
        219 => 181,
        220 => 183,
        221 => 184,
        222 => 186,
        223 => 188,
        224 => 190,
        225 => 192,
        226 => 194,
        227 => 196,
        228 => 198,
        229 => 200,
        230 => 202,
        231 => 204,
        232 => 206,
        233 => 208,
        234 => 210,
        235 => 212,
        236 => 214,
        237 => 216,
        238 => 218,
        239 => 220,
        240 => 222,
        241 => 224,
        242 => 226,
        243 => 229,
        244 => 231,
        245 => 233,
        246 => 235,
        247 => 237,
        248 => 239,
        249 => 242,
        250 => 244,
        251 => 246,
        252 => 248,
        253 => 250,
        254 => 253,
        255 => 255,
    }
}

/// Maps an 8-bit perceptual channel value to the linear hardware value.
pub fn degamma(v: u8) -> (r: u8)
    ensures
        r == degamma_spec(v),
{
    match v {
        0 => 0,
        1 => 0,
        2 => 0,
        3 => 0,
        4 => 0,
        5 => 0,
        6 => 0,
        7 => 1,
        8 => 1,
        9 => 1,
        10 => 1,
        11 => 1,
        12 => 1,
        13 => 1,
        14 => 1,
        15 => 1,
        16 => 1,
        17 => 1,
        18 => 2,
        19 => 2,
        20 => 2,
        21 => 2,
        22 => 2,
        23 => 2,
        24 => 2,
        25 => 2,
        26 => 3,
        27 => 3,
        28 => 3,
        29 => 3,
        30 => 3,
        31 => 3,
        32 => 4,
        33 => 4,
        34 => 4,
        35 => 4,
        36 => 4,
        37 => 5,
        38 => 5,
        39 => 5,
        40 => 5,
        41 => 6,
        42 => 6,
        43 => 6,
        44 => 6,
        45 => 7,
        46 => 7,
        47 => 7,
        48 => 8,
        49 => 8,
        50 => 8,
        51 => 8,
        52 => 9,
        53 => 9,
        54 => 9,
        55 => 10,
        56 => 10,
        57 => 10,
        58 => 11,
        59 => 11,
        60 => 12,
        61 => 12,
        62 => 12,
        63 => 13,
        64 => 13,
        65 => 13,
        66 => 14,
        67 => 14,
        68 => 15,
        69 => 15,
        70 => 16,
        71 => 16,
        72 => 17,
        73 => 17,
        74 => 17,
        75 => 18,
        76 => 18,
        77 => 19,
        78 => 19,
        79 => 20,
        80 => 20,
        81 => 21,
        82 => 22,
        83 => 22,
        84 => 23,
        85 => 23,
        86 => 24,
        87 => 24,
        88 => 25,
        89 => 25,
        90 => 26,
        91 => 27,
        92 => 27,
        93 => 28,
        94 => 29,
        95 => 29,
        96 => 30,
        97 => 30,
        98 => 31,
        99 => 32,
        100 => 32,
        101 => 33,
        102 => 34,
        103 => 35,
        104 => 35,
        105 => 36,
        106 => 37,
        107 => 37,
        108 => 38,
        109 => 39,
        110 => 40,
        111 => 41,
        112 => 41,
        113 => 42,
        114 => 43,
        115 => 44,
        116 => 45,
        117 => 45,
        118 => 46,
        119 => 47,
        120 => 48,
        121 => 49,
        122 => 50,
        123 => 51,
        124 => 51,
        125 => 52,
        126 => 53,
        127 => 54,
        128 => 55,
        129 => 56,
        130 => 57,
        131 => 58,
        132 => 59,
        133 => 60,
        134 => 61,
        135 => 62,
        136 => 63,
        137 => 64,
        138 => 65,
        139 => 66,
        140 => 67,
        141 => 68,
        142 => 69,
        143 => 70,
        144 => 71,
        145 => 72,
        146 => 73,
        147 => 74,
        148 => 76,
        149 => 77,
        150 => 78,
        151 => 79,
        152 => 80,
        153 => 81,
        154 => 82,
        155 => 84,
        156 => 85,
        157 => 86,
        158 => 87,
        159 => 88,
        160 => 90,
        161 => 91,
        162 => 92,
        163 => 93,
        164 => 95,
        165 => 96,
        166 => 97,
        167 => 99,
        168 => 100,
        169 => 101,
        170 => 103,
        171 => 104,
        172 => 105,
        173 => 107,
        174 => 108,
        175 => 109,
        176 => 111,
        177 => 112,
        178 => 114,
        179 => 115,
        180 => 116,
        181 => 118,
        182 => 119,
        183 => 121,
        184 => 122,
        185 => 124,
        186 => 125,
        187 => 127,
        188 => 128,
        189 => 130,
        190 => 131,
        191 => 133,
        192 => 134,
        193 => 136,
        194 => 138,
        195 => 139,
        196 => 141,
        197 => 142,
        198 => 144,
        199 => 146,
        200 => 147,
        201 => 149,
        202 => 151,
        203 => 152,
        204 => 154,
        205 => 156,
        206 => 157,
        207 => 159,
        208 => 161,
        209 => 163,
        210 => 164,
        211 => 166,
        212 => 168,
        213 => 170,
        214 => 171,
        215 => 173,
        216 => 175,
        217 => 177,
        218 => 179,
        219 => 181,
        220 => 183,
        221 => 184,
        222 => 186,
        223 => 188,
        224 => 190,
        225 => 192,
        226 => 194,
        227 => 196,
        228 => 198,
        229 => 200,
        230 => 202,
        231 => 204,
        232 => 206,
        233 => 208,
        234 => 210,
        235 => 212,
        236 => 214,
        237 => 216,
        238 => 218,
        239 => 220,
        240 => 222,
        241 => 224,
        242 => 226,
        243 => 229,
        244 => 231,
        245 => 233,
        246 => 235,
        247 => 237,
        248 => 239,
        249 => 242,
        250 => 244,
        251 => 246,
        252 => 248,
        253 => 250,
        254 => 253,
        255 => 255,
    }
}

/// The brightness multiplier for a perceived percentage, in 16.16 fixed
/// point: floor((p/100)^2.8 * 65536). Percentages above 100 behave as 100
/// (the curve is clamped to a multiplier of at most 1.0).
pub open spec fn brightness_q16_spec(p: u8) -> u32 {
    match p {
        0 => 0,
        1 => 0,
        2 => 1,
        3 => 3,
        4 => 7,
        5 => 14,
        6 => 24,
        7 => 38,
        8 => 55,
        9 => 77,
        10 => 103,
        11 => 135,
        12 => 173,
        13 => 216,
        14 => 266,
        15 => 323,
        16 => 387,
        17 => 458,
        18 => 538,
        19 => 626,
        20 => 723,
        21 => 829,
        22 => 944,
        23 => 1069,
        24 => 1205,
        25 => 1351,
        26 => 1508,
        27 => 1676,
        28 => 1855,
        29 => 2047,
        30 => 2251,
        31 => 2467,
        32 => 2697,
        33 => 2939,
        34 => 3196,
        35 => 3466,
        36 => 3750,
        37 => 4049,
        38 => 4363,
        39 => 4693,
        40 => 5037,
        41 => 5398,
        42 => 5775,
        43 => 6168,
        44 => 6578,
        45 => 7006,
        46 => 7450,
        47 => 7913,
        48 => 8393,
        49 => 8892,
        50 => 9410,
        51 => 9946,
        52 => 10502,
        53 => 11077,
        54 => 11672,
        55 => 12288,
        56 => 12924,
        57 => 13580,
        58 => 14258,
        59 => 14957,
        60 => 15678,
        61 => 16421,
        62 => 17186,
        63 => 17973,
        64 => 18783,
        65 => 19617,
        66 => 20474,
        67 => 21354,
        68 => 22258,
        69 => 23187,
        70 => 24140,
        71 => 25119,
        72 => 26122,
        73 => 27150,
        74 => 28205,
        75 => 29285,
        76 => 30391,
        77 => 31524,
        78 => 32684,
        79 => 33871,
        80 => 35085,
        81 => 36327,
        82 => 37597,
        83 => 38895,
        84 => 40221,
        85 => 41576,
        86 => 42961,
        87 => 44374,
        88 => 45817,
        89 => 47290,
        90 => 48793,
        91 => 50326,
        92 => 51890,
        93 => 53485,
        94 => 55110,
        95 => 56768,
        96 => 58457,
        97 => 60178,
        98 => 61931,
        99 => 63717,
        100 => 65536,
        _ => 65536,
    }
}

/// Looks up the 16.16 fixed-point brightness multiplier for a percentage.
pub fn brightness_q16(p: u8) -> (q: u32)
    ensures
        q == brightness_q16_spec(p),
{
    match p {
        0 => 0,
        1 => 0,
        2 => 1,
        3 => 3,
        4 => 7,
        5 => 14,
        6 => 24,
        7 => 38,
        8 => 55,
        9 => 77,
        10 => 103,
        11 => 135,
        12 => 173,
        13 => 216,
        14 => 266,
        15 => 323,
        16 => 387,
        17 => 458,
        18 => 538,
        19 => 626,
        20 => 723,
        21 => 829,
        22 => 944,
        23 => 1069,
        24 => 1205,
        25 => 1351,
        26 => 1508,
        27 => 1676,
        28 => 1855,
        29 => 2047,
        30 => 2251,
        31 => 2467,
        32 => 2697,
        33 => 2939,
        34 => 3196,
        35 => 3466,
        36 => 3750,
        37 => 4049,
        38 => 4363,
        39 => 4693,
        40 => 5037,
        41 => 5398,
        42 => 5775,
        43 => 6168,
        44 => 6578,
        45 => 7006,
        46 => 7450,
        47 => 7913,
        48 => 8393,
        49 => 8892,
        50 => 9410,
        51 => 9946,
        52 => 10502,
        53 => 11077,
        54 => 11672,
        55 => 12288,
        56 => 12924,
        57 => 13580,
        58 => 14258,
        59 => 14957,
        60 => 15678,
        61 => 16421,
        62 => 17186,
        63 => 17973,
        64 => 18783,
        65 => 19617,
        66 => 20474,
        67 => 21354,
        68 => 22258,
        69 => 23187,
        70 => 24140,
        71 => 25119,
        72 => 26122,
        73 => 27150,
        74 => 28205,
        75 => 29285,
        76 => 30391,
        77 => 31524,
        78 => 32684,
        79 => 33871,
        80 => 35085,
        81 => 36327,
        82 => 37597,
        83 => 38895,
        84 => 40221,
        85 => 41576,
        86 => 42961,
        87 => 44374,
        88 => 45817,
        89 => 47290,
        90 => 48793,
        91 => 50326,
        92 => 51890,
        93 => 53485,
        94 => 55110,
        95 => 56768,
        96 => 58457,
        97 => 60178,
        98 => 61931,
        99 => 63717,
        100 => 65536,
        _ => 65536,
    }
}

/// The brightness multiplier never exceeds 1.0 in fixed point.
pub proof fn lemma_brightness_q16_bound(p: u8)
    ensures
        brightness_q16_spec(p) <= BRIGHT_ONE,
{
}

/// One channel scaled by the brightness curve, truncating.
pub open spec fn scale_channel_spec(c: u8, p: u8) -> u8 {
    ((c as int * brightness_q16_spec(p) as int) / 65536) as u8
}

/// All three channels scaled by the brightness curve.
pub open spec fn apply_brightness_spec(color: (u8, u8, u8), pct: u8) -> (u8, u8, u8) {
    (
        scale_channel_spec(color.0, pct),
        scale_channel_spec(color.1, pct),
        scale_channel_spec(color.2, pct),
    )
}

/// A channel scaled by a multiplier of at most 1.0 stays within 0..=255.
pub proof fn lemma_scale_channel_in_range(c: u8, q: u32)
    requires
        q <= BRIGHT_ONE,
    ensures
        0 <= (c as int * q as int) / 65536 <= c,
{
    assert((c as int * q as int) / 65536 <= c && 0 <= (c as int * q as int) / 65536)
        by (nonlinear_arith)
        requires
            q <= 65536,
            0 <= c,
    ;
}

/// Scales a color by the perceived-brightness-to-duty-cycle power law
/// (exponent 2.8), truncating each channel to an integer.
pub fn apply_brightness(color: (u8, u8, u8), pct: u8) -> (out: (u8, u8, u8))
    ensures
        out == apply_brightness_spec(color, pct),
        out.0 <= color.0,
        out.1 <= color.1,
        out.2 <= color.2,
{
    let q = brightness_q16(pct);
    proof {
        lemma_brightness_q16_bound(pct);
        lemma_scale_channel_in_range(color.0, q);
        lemma_scale_channel_in_range(color.1, q);
        lemma_scale_channel_in_range(color.2, q);
    }
    let r = ((color.0 as u32 * q) / 65536) as u8;
    let g = ((color.1 as u32 * q) / 65536) as u8;
    let b = ((color.2 as u32 * q) / 65536) as u8;
    (r, g, b)
}

/// Full brightness leaves a color unchanged: the multiplier is exactly 1.0.
pub proof fn lemma_brightness_full(color: (u8, u8, u8))
    ensures
        apply_brightness_spec(color, 100) == color,
{
    assert(brightness_q16_spec(100) == 65536);
    lemma_times_one_div(color.0 as int);
    lemma_times_one_div(color.1 as int);
    lemma_times_one_div(color.2 as int);
}

/// Zero brightness blanks a color entirely.
pub proof fn lemma_brightness_zero(color: (u8, u8, u8))
    ensures
        apply_brightness_spec(color, 0) == (0u8, 0u8, 0u8),
{
    assert(brightness_q16_spec(0) == 0);
}

proof fn lemma_times_one_div(c: int)
    requires
        0 <= c,
    ensures
        (c * 65536) / 65536 == c,
{
    assert((c * 65536) / 65536 == c) by (nonlinear_arith)
        requires
            0 <= c,
    ;
}

/// Each entry of the degamma table is at most the next one.
#[verifier::rlimit(100)]
#[verifier::spinoff_prover]
proof fn lemma_degamma_adjacent(i: u8)
    requires
        i < 255,
    ensures
        degamma_spec(i) <= degamma_spec((i + 1) as u8),
{
}

proof fn lemma_degamma_monotonic_rec(a: u8, b: u8)
    requires
        a <= b,
    ensures
        degamma_spec(a) <= degamma_spec(b),
    decreases b - a,
{
    if a < b {
        lemma_degamma_adjacent(a);
        lemma_degamma_monotonic_rec((a + 1) as u8, b);
    }
}

/// The degamma curve is monotonic non-decreasing over its whole domain,
/// and maps the two endpoints to themselves.
pub proof fn lemma_degamma_monotonic(a: u8, b: u8)
    requires
        a <= b,
    ensures
        degamma_spec(a) <= degamma_spec(b),
        degamma_spec(0) == 0,
        degamma_spec(255) == 255,
{
    lemma_degamma_monotonic_rec(a, b);
}

/// The numeric value of one hexadecimal digit character, upper or lower
/// case, if it is one.
pub open spec fn hex_digit_val_spec(c: char) -> Option<u8> {
    match c {
        '0' => Some(0u8),
        '1' => Some(1u8),
        '2' => Some(2u8),
        '3' => Some(3u8),
        '4' => Some(4u8),
        '5' => Some(5u8),
        '6' => Some(6u8),
        '7' => Some(7u8),
        '8' => Some(8u8),
        '9' => Some(9u8),
        'a' => Some(10u8),
        'b' => Some(11u8),
        'c' => Some(12u8),
        'd' => Some(13u8),
        'e' => Some(14u8),
        'f' => Some(15u8),
        'A' => Some(10u8),
        'B' => Some(11u8),
        'C' => Some(12u8),
        'D' => Some(13u8),
        'E' => Some(14u8),
        'F' => Some(15u8),
        _ => None,
    }
}

/// The byte value of two hexadecimal digit characters, if both are ones.
pub open spec fn hex_pair_spec(hi: char, lo: char) -> Option<u8> {
    match (hex_digit_val_spec(hi), hex_digit_val_spec(lo)) {
        (Option::Some(h), Option::Some(l)) => Some((h * 16 + l) as u8),
        _ => None,
    }
}

/// The color a hex string of the exact shape `#rrggbb` denotes, and
/// `None` for any other string.
pub open spec fn hex_to_rgb_spec(s: Seq<char>) -> Option<(u8, u8, u8)> {
    if s.len() == 7 && s[0] == '#' {
        match (hex_pair_spec(s[1], s[2]), hex_pair_spec(s[3], s[4]), hex_pair_spec(s[5], s[6])) {
            (
                Option::Some(r),
                Option::Some(g),
                Option::Some(b),
            ) => Some((r, g, b)),
            _ => None,
        }
    } else {
        None
    }
}

fn hex_digit_val(c: char) -> (v: Option<u8>)
    ensures
        v == hex_digit_val_spec(c),
{
    match c {
        '0' => Some(0),
        '1' => Some(1),
        '2' => Some(2),
        '3' => Some(3),
        '4' => Some(4),
        '5' => Some(5),
        '6' => Some(6),
        '7' => Some(7),
        '8' => Some(8),
        '9' => Some(9),
        'a' => Some(10),
        'b' => Some(11),
        'c' => Some(12),
        'd' => Some(13),
        'e' => Some(14),
        'f' => Some(15),
        'A' => Some(10),
        'B' => Some(11),
        'C' => Some(12),
        'D' => Some(13),
        'E' => Some(14),
        'F' => Some(15),
        _ => None,
    }
}

fn hex_pair(hi: char, lo: char) -> (v: Option<u8>)
    ensures
        v == hex_pair_spec(hi, lo),
{
    match (hex_digit_val(hi), hex_digit_val(lo)) {
        (Some(h), Some(l)) => Some(h * 16 + l),
        _ => None,
    }
}

/// Parses a `#rrggbb` hex color into its three channels. Any string of
/// another length, without the leading `#`, or with a non-hex digit
/// yields `None`.
pub fn hex_to_rgb(hex: &str) -> (rgb: Option<(u8, u8, u8)>)
    ensures
        rgb == hex_to_rgb_spec(hex@),
{
    let len: usize = hex.unicode_len();
    if len != 7 {
        return None;
    }
    if hex.get_char(0) != '#' {
        return None;
    }
    let r = hex_pair(hex.get_char(1), hex.get_char(2));
    let g = hex_pair(hex.get_char(3), hex.get_char(4));
    let b = hex_pair(hex.get_char(5), hex.get_char(6));
    match (r, g, b) {
        (Some(r), Some(g), Some(b)) => Some((r, g, b)),
        _ => None,
    }
}

} // verus!
