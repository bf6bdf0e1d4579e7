use models::common::fixed_char_array::FixedCharSlice;
use models::common::fixed_char_nd_array::FixedCharNDArray;
use models::common::signed_fixed_char_array::SignedFixedCharSlice;
use models::common::varriable_char_array::VarriableCharArray;

#[test]
fn fixed_char_array_valid_from_bytes_to_fixed_char_slice() {
    let from = "BALDUR".as_bytes();
    assert_eq!(
        FixedCharSlice::<6>::try_from(from)
            .unwrap_or_default()
            .to_string(),
        "BALDUR"
    )
}

#[test]
fn fixed_char_array_valid_longer_from_bytes_to_fixed_char_slice() {
    let from = "BALDUR".as_bytes();
    assert_eq!(
        FixedCharSlice::<6>::try_from(from)
            .unwrap_or_default()
            .to_string(),
        "BALDUR"
    )
}

#[test]
fn fixed_char_array_valid_shorter_from_bytes_to_fixed_char_slice() {
    let from = "BALDUR".as_bytes();
    assert_eq!(
        FixedCharSlice::<5>::try_from(from)
            .unwrap_or_default()
            .to_string(),
        "BALDU"
    )
}

#[test]
fn valid_from_bytes() {
    let from = "BALDUR".as_bytes();
    assert_eq!(FixedCharNDArray::<6, 1>::from(from).to_string(), "BALDUR")
}

#[test]
fn valid_longer_from_bytes() {
    let from = "BALDUR".as_bytes();
    assert_eq!(FixedCharNDArray::<7, 1>::from(from).to_string(), "BALDUR")
}

#[test]
fn valid_shorter_from_bytes() {
    let from = "BALDUR".as_bytes();
    assert_eq!(FixedCharNDArray::<5, 1>::from(from).to_string(), "BALDU")
}

#[test]
fn valid_from_bytes_2d() {
    let from = "BALDURBALDUR".as_bytes();
    assert_eq!(
        FixedCharNDArray::<6, 2>::from(from).to_string(),
        "BALDUR, BALDUR"
    )
}

#[test]
fn valid_longer_from_bytes_3d() {
    let from = "BALDURBALDURBALDUR".as_bytes();
    assert_eq!(
        FixedCharNDArray::<7, 3>::from(from).to_string(),
        "BALDURB, ALDURBA, LDUR"
    )
}

#[test]
fn valid_shorter_from_bytes_4d() {
    let from = "BALDURBALDURBALDURBALDURBALDUR".as_bytes();
    assert_eq!(
        FixedCharNDArray::<5, 4>::from(from).to_string(),
        "BALDU, RBALD, URBAL, DURBA"
    )
}

#[test]
fn signed_fixed_char_array_valid_from_bytes_to_fixed_char_slice() {
    let from = "BALDUR";
    assert_eq!(
        SignedFixedCharSlice::<6>::try_from(from)
            .unwrap_or_default()
            .to_string(),
        from
    )
}

#[test]
fn signed_fixed_char_array_valid_longer_from_bytes_to_fixed_char_slice() {
    let from = "BALDUR";
    assert_eq!(
        SignedFixedCharSlice::<7>::try_from(from)
            .unwrap_or_default()
            .to_string(),
        "BALDUR"
    )
}

#[test]
fn signed_fixed_char_array_valid_shorter_from_bytes_to_fixed_char_slice() {
    let from = "BALDUR";
    assert_eq!(
        SignedFixedCharSlice::<5>::try_from(from)
            .unwrap_or_default()
            .to_string(),
        "BALDU"
    )
}

#[test]
fn strips_nulls_and_returns() {
    let from = "BALDUR\0";
    let expected = "BALDUR";
    assert_eq!(
        VarriableCharArray(from.as_bytes().into()).to_string(),
        expected
    )
}

#[test]
fn fixed_char_slice_pads_short_input_with_nul() {
    let s = FixedCharSlice::<8>::from("AR01".as_bytes());
    assert_eq!(s.0, [b'A', b'R', b'0', b'1', 0, 0, 0, 0]);
    assert_eq!(s.to_string(), "AR01");
}

#[test]
fn fixed_char_slice_invalid_utf8_shows_empty() {
    let s = FixedCharSlice::<2>::from(&[0xff_u8, 0xfe][..]);
    assert_eq!(s.to_string(), "");
}

#[test]
fn signed_fixed_char_array_from_signed_bytes() {
    let bytes: [i8; 3] = [66, 71, 0];
    let s = SignedFixedCharSlice::<3>::from(&bytes[..]);
    assert_eq!(s.to_string(), "BG");
}

#[test]
fn fixed_char_nd_array_missing_bytes_are_zero() {
    let d = FixedCharNDArray::<2, 2>::from("ABC".as_bytes());
    assert_eq!(d.to_string(), "AB, C");
}
