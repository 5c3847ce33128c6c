use oxyjs::vm::value::{UnpackedValue, Value};

/// Integer round-trip: unpacking an encoded immediate i32 returns it.
#[test]
fn imm_i32_round_trip() {
    for &i in &[0i32, 1, -1, 42, -42, i32::MAX, i32::MIN, 123456789, -987654321] {
        let v = Value::new_imm_i32(i);
        assert!(v.is_imm_i32());
        assert!(!v.is_imm_bool());
        assert_eq!(v.get_imm_i32(), Some(i));
        assert_eq!(v.get_unchecked_imm_i32(), i);
        assert_eq!(v.unpack(), UnpackedValue::Int32(i));
    }
}

#[test]
fn imm_undef_and_null() {
    let u = Value::new_imm_undef();
    assert!(u.is_imm_undef_null());
    assert!(u.is_imm_undef());
    assert!(!u.is_imm_null());
    assert_eq!(u.unpack(), UnpackedValue::Undefined);

    let n = Value::new_imm_null();
    assert!(n.is_imm_undef_null());
    assert!(n.is_imm_null());
    assert!(!n.is_imm_undef());
    assert_eq!(n.unpack(), UnpackedValue::Null);
}

#[test]
fn imm_bool_round_trip() {
    let t = Value::new_imm_bool(true);
    assert!(t.is_imm_bool());
    assert!(t.is_imm_true());
    assert!(!t.is_imm_false());
    assert_eq!(t.get_imm_bool(), Some(true));
    assert_eq!(t.unpack(), UnpackedValue::Bool(true));

    let f = Value::new_imm_bool(false);
    assert!(f.is_imm_false());
    assert_eq!(f.get_imm_bool(), Some(false));
    assert_eq!(f.unpack(), UnpackedValue::Bool(false));

    assert_eq!(t.get_imm_i32(), None);
}

/// String round-trip: every byte slice of length up to seven decodes
/// back to exactly its bytes.
#[test]
fn imm_str_round_trip() {
    let cases: Vec<&[u8]> = vec![
        b"",
        b"a",
        b"ab",
        b"abc",
        b"abcd",
        b"abcde",
        b"abcdef",
        b"abcdefg",
        b"\x00\xff\x7f\x80",
        b"hi!",
    ];
    for bytes in cases {
        let v = Value::new_imm_str(bytes);
        assert!(v.is_imm_str());
        assert_eq!(v.get_unchecked_imm_str_len() as usize, bytes.len());
        for (i, &b) in bytes.iter().enumerate() {
            assert_eq!(v.get_unchecked_imm_str_char(i as u8), b);
        }
        assert_eq!(v.get_imm_str(), Some(bytes.to_vec()));
        assert_eq!(v.unpack(), UnpackedValue::ImmStr(bytes.to_vec()));
    }
}

#[test]
fn ptr_round_trip() {
    let v = Value::new_ptr(0x1000);
    assert!(v.is_ptr());
    assert_eq!(v.get_ptr(), Some(0x1000));
    assert_eq!(v.get_unchecked_ptr(), 0x1000);
    assert_eq!(v.unpack(), UnpackedValue::Ptr(0x1000));

    let z = Value::new_ptr(0);
    assert!(z.is_ptr());
    assert_eq!(z.get_ptr(), Some(0));
}

/// Double round-trip: every finite double with a common exponent whose
/// rotation lands in the reserved tag range decodes bit-exactly.
#[test]
fn imm_f64_round_trip() {
    for &f in &[0.0f64, 1.0, -1.0, 2.5, -2.5, 1234.5678, -0.001, 1e10, -1e-10, 3.14159] {
        let bits = f.to_bits();
        let rotated = bits.rotate_left(5);
        assert!(rotated & 0xF <= 0b1000, "test value {} should be encodable", f);
        let v = Value::new_imm_f64(bits);
        assert!(v.is_imm_f64());
        assert!(!v.is_imm_i32());
        let back = v.get_imm_f64().expect("double payload");
        assert_eq!(back, bits);
        assert_eq!(f64::from_bits(back), f);
        assert_eq!(v.unpack(), UnpackedValue::Float64(bits));
        assert_eq!(v.get_unchecked_imm_f64(), bits);
    }
}

#[test]
fn tag_discrimination() {
    let i = Value::new_imm_i32(7);
    let b = Value::new_imm_bool(true);
    let s = Value::new_imm_str(b"xy");
    let p = Value::new_ptr(0x40);
    assert_eq!(i.get_imm_bool(), None);
    assert_eq!(b.get_imm_str(), None);
    assert_eq!(s.get_ptr(), None);
    assert_eq!(p.get_imm_f64(), None);
    assert_eq!(p.get_imm_i32(), None);
}
