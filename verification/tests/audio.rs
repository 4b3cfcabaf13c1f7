use tvoice::audio::{sample_from_u16, samples_from_u16};

#[test]
fn unsigned_samples_shift_to_signed() {
    assert_eq!(sample_from_u16(0), i16::MIN);
    assert_eq!(sample_from_u16(32768), 0);
    assert_eq!(sample_from_u16(u16::MAX), i16::MAX);
    assert_eq!(sample_from_u16(32769), 1);
    assert_eq!(samples_from_u16(&[0, 32768, 65535, 40000]), vec![-32768, 0, 32767, 7232]);
    assert_eq!(samples_from_u16(&[]), Vec::<i16>::new());
}

#[test]
fn conversion_preserves_order() {
    let mut prev = sample_from_u16(0);
    for s in 1..=u16::MAX {
        let v = sample_from_u16(s);
        assert!(v > prev);
        prev = v;
    }
}
