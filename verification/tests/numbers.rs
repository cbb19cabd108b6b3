//! The integer arithmetic on floating-point bits against the machine's own.

use proxy_core::number::{
    add_eye_height, add_singles, count_to_single, double_single, double_to_fixed_cut, double_to_fixed_rounded,
    double_to_single, fixed_to_double, single_to_sixteenths, single_to_volume, sixteenths_to_single,
    sixty_thirds_to_single, take_one, trunc_128,
};
use proxy_core::text::{json_line, lower_hex, push_decimal};

/// A sequence of bit patterns that visits all exponents and many fractions.
fn patterns() -> Vec<u64> {
    let mut v = vec![
        0,
        1,
        0x8000_0000_0000_0000,
        0x7FF0_0000_0000_0000,
        0xFFF0_0000_0000_0000,
        0x000F_FFFF_FFFF_FFFF,
        0x0010_0000_0000_0000,
        0x7FEF_FFFF_FFFF_FFFF,
        1.62f64.to_bits(),
        (-1.62f64).to_bits(),
        0.015625f64.to_bits(),
        (-0.046875f64).to_bits(),
        67108863.984375f64.to_bits(),
        2147483647.5f64.to_bits(),
    ];
    let mut x: u64 = 0x9E37_79B9_7F4A_7C15;
    for i in 0..20_000u64 {
        x ^= x << 13;
        x ^= x >> 7;
        x ^= x << 17;
        v.push(x);
        // Values near the size of coordinates.
        v.push((x & 0x800F_FFFF_FFFF_FFFF) | ((0x3E0 + (i % 64)) << 52));
    }
    v
}

#[test]
fn doubles_to_fixed_point_as_the_machine_does() {
    for b in patterns() {
        let f = f64::from_bits(b);
        assert_eq!(double_to_fixed_rounded(b), (f * 32.0).round() as i32, "rounded {:x}", b);
        assert_eq!(double_to_fixed_cut(b), (f * 32.0) as i32, "cut {:x}", b);
    }
}

#[test]
fn not_a_number_becomes_zero() {
    assert_eq!(double_to_fixed_rounded(f64::NAN.to_bits()), 0);
    assert_eq!(double_to_fixed_cut(f64::NAN.to_bits()), 0);
    assert_eq!(single_to_volume(f32::NAN.to_bits()), 0);
    assert_eq!(single_to_sixteenths(f32::NAN.to_bits()), 0);
}

#[test]
fn doubles_to_singles_as_the_machine_does() {
    for b in patterns() {
        let f = f64::from_bits(b);
        if !f.is_nan() {
            assert_eq!(double_to_single(b), (f as f32).to_bits(), "{:x}", b);
        }
    }
}

#[test]
fn eye_height_is_added_as_the_machine_does() {
    for b in patterns() {
        let f = f64::from_bits(b);
        if !f.is_nan() {
            assert_eq!(add_eye_height(b), (f + 1.62).to_bits(), "{:x}", b);
        }
    }
}

#[test]
fn fixed_point_to_doubles_as_the_machine_does() {
    for x in [0, 1, -1, 31, 32, 33, -77, 1_000_003, i32::MAX, i32::MIN] {
        for shift in 0..=5u32 {
            assert_eq!(fixed_to_double(x, shift), (x as f64 / (1u32 << shift) as f64).to_bits());
        }
    }
}

#[test]
fn small_singles_as_the_machine_makes_them() {
    for x in -255i16..=255 {
        assert_eq!(sixteenths_to_single(x), (x as f32 / 16.0).to_bits());
    }
    for x in i8::MIN..=i8::MAX {
        assert_eq!(sixty_thirds_to_single(x), (x as f32 / 63.0).to_bits(), "{}", x);
    }
}

#[test]
fn singles_to_steps_as_the_machine_does() {
    for b in patterns() {
        for bits in [(b >> 32) as u32, b as u32, ((b as u32) & 0x007F_FFFF) | 0x3F00_0000, ((b as u32) & 0x00FF_FFFF) | 0x4000_0000] {
            let f = f32::from_bits(bits);
            if !f.is_nan() {
                assert_eq!(single_to_volume(bits), (f * 63.0).round().clamp(0.0, 255.0) as u8, "{:x}", bits);
                assert_eq!(single_to_sixteenths(bits), (f * 16.0).clamp(0.0, 15.0) as i8, "{:x}", bits);
            }
        }
    }
}

#[test]
fn deltas_are_cut_toward_zero() {
    for d in [0i16, 1, -1, 127, 128, 255, 256, -127, -128, -129, i16::MAX, i16::MIN] {
        assert_eq!(trunc_128(d), d / 128);
    }
}

#[test]
fn counts_and_tokens_as_the_machine_does() {
    let mut x: u32 = 1;
    for n in [0u32, 1, 2, 3, 8, 64, 100, 0xFF_FFFF, 0x100_0000, 0x100_0001, 0x100_0002, 0x100_0003, u32::MAX] {
        assert_eq!(count_to_single(n), (n as f32).to_bits(), "{}", n);
    }
    for _ in 0..20_000 {
        x ^= x << 13;
        x ^= x >> 17;
        x ^= x << 5;
        assert_eq!(count_to_single(x), (x as f32).to_bits());
        let b = x % 0x4F80_0001;
        let c = x.rotate_left(11) % 0x4F80_0001;
        let (f, g) = (f32::from_bits(b), f32::from_bits(c));
        assert_eq!(add_singles(b, c), (f + g).to_bits(), "{:x} {:x}", b, c);
        assert_eq!(double_single(b), (f * 2.0).to_bits());
        let near = 0x3F80_0000 + x % 0x1000_0001;
        assert_eq!(take_one(near), (f32::from_bits(near) - 1.0).to_bits(), "{:x}", near);
        let small = x % 0x0100_0000;
        assert_eq!(add_singles(small, b), (f32::from_bits(small) + f).to_bits());
        assert_eq!(double_single(small), (f32::from_bits(small) * 2.0).to_bits());
    }
    assert_eq!(double_single(0x7F00_0000), f32::INFINITY.to_bits());
}

#[test]
fn numbers_are_printed() {
    for n in [0u64, 7, 10, 47, 340, 765, 1_000_000, u64::MAX] {
        let mut s = String::new();
        push_decimal(&mut s, n);
        assert_eq!(s, format!("{}", n));
    }
    for n in [0u32, 9, 10, 15, 16, 255, 0xDEAD_BEEF] {
        let mut s = String::from("0x");
        lower_hex(&mut s, n);
        assert_eq!(s, format!("0x{:x}", n));
    }
}

#[test]
fn control_characters_are_escaped_in_lines() {
    assert_eq!(json_line("a\"b\\c\n\r\t\u{1}\u{8}é"), "{\"text\":\"a\\\"b\\\\c\\n\\r\\t\\u0001\\u0008é\"}");
}
