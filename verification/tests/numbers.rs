use atc_console::binary64::{from_i64, less, nan, to_i64, to_u64};
use atc_console::bytecode::{landing, signed, unsigned, word, ByteCode, ByteOption};
use atc_console::cpu::compute;
use atc_console::fault::Fault;
use atc_console::instr::Arith;
use atc_console::mem::Mem;

fn sample_integers() -> Vec<i64> {
    let mut all = vec![0, 1, -1, 2, 3, 7, 255, 300, -300, 65025, i64::MAX, i64::MIN, i64::MIN + 1];
    for shift in 0..63 {
        let p = 1i64 << shift;
        for delta in [-3i64, -2, -1, 0, 1, 2, 3] {
            all.push(p.wrapping_add(delta));
            all.push(p.wrapping_add(delta).wrapping_neg());
            all.push(p.wrapping_mul(3).wrapping_add(delta));
        }
    }
    // ties between two neighbouring floats, and their neighbours
    for high in [1i64 << 53, 1 << 54, 1 << 60, (1 << 53) + (1 << 20), 0x7fff_ffff_ffff_f000] {
        for low in 0..=4096 {
            all.push(high.wrapping_add(low));
            all.push(high.wrapping_add(low).wrapping_neg());
        }
    }
    all
}

fn sample_floats() -> Vec<f64> {
    let mut all = vec![
        0.0,
        -0.0,
        0.5,
        -0.5,
        0.999_999_999,
        1.0,
        -1.0,
        1.5,
        2.5,
        -2.5,
        45.0,
        300.0,
        300.75,
        -300.75,
        65024.99,
        1e15,
        1e18,
        9.2e18,
        9.3e18,
        -9.3e18,
        1.8e19,
        1.9e19,
        1e300,
        -1e300,
        f64::MAX,
        f64::MIN,
        f64::MIN_POSITIVE,
        f64::EPSILON,
        5e-324,
        f64::INFINITY,
        f64::NEG_INFINITY,
        f64::NAN,
        9007199254740992.0,
        9007199254740993.0,
        9223372036854775807.0,
        -9223372036854775808.0,
        18446744073709551615.0,
        4611686018427387904.0,
    ];
    for i in sample_integers() {
        all.push(i as f64);
    }
    all.push(f64::from_bits(0x7ff8_0000_0000_0001));
    all.push(f64::from_bits(0xfff0_0000_0000_0001));
    all
}

#[test]
fn integers_convert_as_a_cast_does() {
    for i in sample_integers() {
        assert_eq!(from_i64(i), (i as f64).to_bits(), "{i}");
    }
}

#[test]
fn three_hundred_is_three_hundred() {
    assert_eq!(from_i64(300), 0x4072_c000_0000_0000);
    assert_eq!(to_i64(0x4072_c000_0000_0000), 300);
    assert_eq!(to_u64(0x4072_c000_0000_0000), 300);
}

#[test]
fn a_tie_goes_to_the_even_neighbour() {
    // 2^53 + 1 lies half way between 2^53 and 2^53 + 2
    assert_eq!(from_i64((1 << 53) + 1), from_i64(1 << 53));
    assert_eq!(from_i64((1 << 53) + 3), from_i64((1 << 53) + 4));
    assert_eq!(to_i64(from_i64((1 << 53) + 3)), (1 << 53) + 4);
}

#[test]
fn floats_are_cut_off_as_a_cast_does() {
    for f in sample_floats() {
        assert_eq!(to_i64(f.to_bits()), f as i64, "{f}");
        assert_eq!(to_u64(f.to_bits()), f as u64, "{f}");
    }
}

#[test]
fn what_does_not_fit_goes_to_the_end_of_the_range() {
    assert_eq!(to_i64(1e30f64.to_bits()), i64::MAX);
    assert_eq!(to_i64((-1e30f64).to_bits()), i64::MIN);
    assert_eq!(to_i64(f64::INFINITY.to_bits()), i64::MAX);
    assert_eq!(to_i64(f64::NEG_INFINITY.to_bits()), i64::MIN);
    assert_eq!(to_i64(f64::NAN.to_bits()), 0);
    assert_eq!(to_u64((-1.5f64).to_bits()), 0);
    assert_eq!(to_u64(1e30f64.to_bits()), u64::MAX);
    assert_eq!(to_u64(f64::NAN.to_bits()), 0);
}

#[test]
fn small_integers_survive_the_round_trip() {
    for i in [0i64, 1, -1, 45, 300, -300, (1 << 53) - 1, 1 << 53, -(1 << 53)] {
        assert_eq!(to_i64(from_i64(i)), i);
    }
    assert_ne!(to_i64(from_i64((1 << 53) + 1)), (1 << 53) + 1);
}

#[test]
fn floats_are_ordered_as_numbers() {
    let all = sample_floats();
    for a in &all {
        for b in [0.0, -0.0, 1.0, -1.0, 300.0, 1e18, -1e300, f64::INFINITY, f64::NAN, 5e-324] {
            assert_eq!(less(a.to_bits(), b.to_bits()), *a < b, "{a} < {b}");
            assert_eq!(less(b.to_bits(), a.to_bits()), b < *a, "{b} < {a}");
        }
    }
}

#[test]
fn the_two_zeros_are_equal() {
    assert!(!less(0.0f64.to_bits(), (-0.0f64).to_bits()));
    assert!(!less((-0.0f64).to_bits(), 0.0f64.to_bits()));
}

#[test]
fn what_is_no_number_is_told_apart() {
    assert!(nan(f64::NAN.to_bits()));
    assert!(nan(0x7ff0_0000_0000_0001));
    assert!(nan(0xffff_ffff_ffff_ffff));
    assert!(!nan(f64::INFINITY.to_bits()));
    assert!(!nan(f64::NEG_INFINITY.to_bits()));
    assert!(!nan(1.0f64.to_bits()));
    assert!(!nan(0));
}

#[test]
fn cells_read_as_numbers() {
    assert_eq!(Mem::Int(300).to_num(), Ok(300.0f64.to_bits()));
    assert_eq!(Mem::Int(-1).to_num(), Ok((-1.0f64).to_bits()));
    assert_eq!(Mem::Float(2.5f64.to_bits()).to_num(), Ok(2.5f64.to_bits()));
    assert_eq!(Mem::Nil.to_num(), Err(Mem::Nil));
    assert_eq!(Mem::ByteArr([1; 8]).to_num(), Err(Mem::ByteArr([1; 8])));
    assert_eq!(Mem::Str(['a'; 8]).to_num(), Err(Mem::Str(['a'; 8])));
}

#[test]
fn literals_decode_by_their_tag() {
    let data = [0x2c, 0x01, 0, 0, 0, 0, 0, 0];
    assert_eq!(Mem::literal(0xe0, data), Ok(Mem::Int(300)));
    assert_eq!(Mem::literal(0xe0, [0xff; 8]), Ok(Mem::Int(-1)));
    assert_eq!(Mem::literal(0xe0, 300i64.to_le_bytes()), Ok(Mem::Int(300)));
    assert_eq!(Mem::literal(0xe0, i64::MIN.to_le_bytes()), Ok(Mem::Int(i64::MIN)));
    assert_eq!(Mem::literal(0xf0, 1.0f64.to_le_bytes()), Ok(Mem::Float(0x3ff0_0000_0000_0000)));
    assert_eq!(
        Mem::literal(0xab, *b"hi there"),
        Ok(Mem::Str(['h', 'i', ' ', 't', 'h', 'e', 'r', 'e']))
    );
    assert_eq!(
        Mem::literal(0xab, [0xe9, 0, 0xff, 65, 66, 67, 68, 69]),
        Ok(Mem::Str(['\u{e9}', '\0', '\u{ff}', 'A', 'B', 'C', 'D', 'E']))
    );
    assert_eq!(Mem::literal(0x8a, data), Ok(Mem::ByteArr(data)));
    assert_eq!(Mem::literal(0x00, data), Err(Fault::UnknownTypeTag(0x00)));
    assert_eq!(Mem::literal(0xe1, data), Err(Fault::UnknownTypeTag(0xe1)));
}

#[test]
fn arrays_take_a_byte_in_a_slot() {
    assert_eq!(
        Mem::ByteArr([0; 8]).with_slot(0, 9),
        Ok(Mem::ByteArr([9, 0, 0, 0, 0, 0, 0, 0]))
    );
    assert_eq!(
        Mem::ByteArr([0; 8]).with_slot(7, 9),
        Ok(Mem::ByteArr([0, 0, 0, 0, 0, 0, 0, 9]))
    );
    assert_eq!(
        Mem::Str(['a'; 8]).with_slot(3, b'z'),
        Ok(Mem::Str(['a', 'a', 'a', 'z', 'a', 'a', 'a', 'a']))
    );
    assert_eq!(Mem::Int(5).with_slot(3, 1), Err(Fault::TypeMismatch(Mem::Int(5))));
    assert_eq!(Mem::Nil.with_slot(0, 1), Err(Fault::TypeMismatch(Mem::Nil)));
}

#[test]
fn eight_bytes_spell_a_number() {
    assert_eq!(word(&[0; 8]), 0);
    assert_eq!(word(&[1, 0, 0, 0, 0, 0, 0, 0]), 1);
    assert_eq!(word(&[0, 1, 0, 0, 0, 0, 0, 0]), 256);
    assert_eq!(word(&[0xff; 8]), u64::MAX);
    assert_eq!(word(&[1, 2, 3, 4, 5, 6, 7, 8]), 0x0807_0605_0403_0201);
    for value in [0u64, 1, 255, 256, 0xdead_beef, u64::MAX, 1 << 63] {
        assert_eq!(word(&value.to_le_bytes()), value);
    }
}

#[test]
fn two_s_complement_goes_both_ways() {
    for value in [0i64, 1, -1, 300, -300, i64::MAX, i64::MIN] {
        assert_eq!(unsigned(value), value as u64);
        assert_eq!(signed(value as u64), value);
    }
    assert_eq!(signed(u64::MAX), -1);
    assert_eq!(signed(1 << 63), i64::MIN);
    assert_eq!(unsigned(-1), u64::MAX);
}

#[test]
fn a_jump_lands_on_its_target() {
    assert_eq!(landing(0), 0);
    assert_eq!(landing(12345), 12345);
    assert_eq!(landing(u64::MAX), usize::MAX);
}

#[test]
fn the_cursor_reads_and_advances() {
    let mut code = ByteCode::new(vec![10, 20, 30]);
    assert_eq!(code.1, 0);
    assert_eq!(code.next().unwrap(), 10);
    assert_eq!(code.next().expect("second byte"), 20);
    assert_eq!(code.1, 2);
    assert_eq!(code.next().ok(), Ok(30));
    assert_eq!(code.1, 3);
    assert!(matches!(code.next(), ByteOption::End(_)));
    assert_eq!(code.1, 3);
    assert_eq!(code.next().ok(), Err(Fault::UnexpectedEndOfProgram));
    assert_eq!(code.0, vec![10, 20, 30]);
}

#[test]
fn the_cursor_at_the_end_hands_itself_back() {
    let mut code = ByteCode::new(vec![1]);
    code.jmp(1);
    match code.next() {
        ByteOption::Byte(_) => panic!("no byte is left"),
        ByteOption::End(cursor) => {
            assert_eq!(cursor.1, 1);
            assert_eq!(cursor.0, vec![1]);
        }
    }
}

#[test]
fn a_jump_is_not_checked() {
    let mut code = ByteCode::new(vec![10, 20, 30]);
    code.jmp(2);
    assert_eq!(code.next().ok(), Ok(30));
    code.jmp(0);
    assert_eq!(code.next().ok(), Ok(10));
    code.jmp(3);
    assert_eq!(code.next().ok(), Err(Fault::UnexpectedEndOfProgram));
    code.jmp(usize::MAX);
    assert_eq!(code.next().ok(), Err(Fault::UnexpectedEndOfProgram));
    assert_eq!(code.1, usize::MAX);
}

#[test]
fn shift_takes_the_first_byte_off() {
    let mut code = ByteCode::new(vec![10, 20, 30]);
    code.jmp(1);
    assert_eq!(code.shift().ok(), Ok(10));
    assert_eq!(code.0, vec![20, 30]);
    assert_eq!(code.1, 1);
    assert_eq!(code.shift().ok(), Ok(20));
    assert_eq!(code.shift().ok(), Ok(30));
    assert!(matches!(code.shift(), ByteOption::End(_)));
    assert_eq!(code.0, Vec::<u8>::new());
}

#[test]
fn integers_wrap_round() {
    assert_eq!(compute(Arith::Add, 2, 3), Ok(5));
    assert_eq!(compute(Arith::Sub, 2, 3), Ok(-1));
    assert_eq!(compute(Arith::Mul, -4, 3), Ok(-12));
    assert_eq!(compute(Arith::Add, i64::MAX, 1), Ok(i64::MIN));
    assert_eq!(compute(Arith::Sub, i64::MIN, 1), Ok(i64::MAX));
    assert_eq!(compute(Arith::Mul, i64::MAX, 2), Ok(-2));
    assert_eq!(compute(Arith::Mul, 1 << 62, 4), Ok(0));
}

#[test]
fn quotients_are_rounded_towards_zero() {
    assert_eq!(compute(Arith::Div, 7, 2), Ok(3));
    assert_eq!(compute(Arith::Div, -7, 2), Ok(-3));
    assert_eq!(compute(Arith::Div, 7, -2), Ok(-3));
    assert_eq!(compute(Arith::Div, -7, -2), Ok(3));
    assert_eq!(compute(Arith::Div, 0, 5), Ok(0));
    assert_eq!(compute(Arith::Div, i64::MIN, 1), Ok(i64::MIN));
    assert_eq!(compute(Arith::Div, i64::MIN + 1, -1), Ok(i64::MAX));
    assert_eq!(compute(Arith::Div, i64::MAX, -1), Ok(i64::MIN + 1));
}

#[test]
fn the_quotient_that_does_not_fit_is_a_fault() {
    assert_eq!(compute(Arith::Div, i64::MIN, -1), Err(Fault::DivisionOverflow));
}

#[test]
fn a_division_by_zero_is_a_fault() {
    assert_eq!(compute(Arith::Div, 7, 0), Err(Fault::DivisionByZero));
    assert_eq!(compute(Arith::Div, 0, 0), Err(Fault::DivisionByZero));
}
