use bao::util::align_up;
use bao::util::bit::bit_extract;
use bao::util::bit::bit_insert;
use bao::util::bit::bit_mask;

#[test]
fn align_up_rounds_to_the_next_multiple() {
    assert_eq!(align_up(0, 0x1000), 0);
    assert_eq!(align_up(1, 0x1000), 0x1000);
    assert_eq!(align_up(0xfff, 0x1000), 0x1000);
    assert_eq!(align_up(0x1000, 0x1000), 0x1000);
    assert_eq!(align_up(0x1001, 0x1000), 0x2000);
    assert_eq!(align_up(0x2_0000, 0x1000), 0x2_0000);
    assert_eq!(align_up(0x1_0000, 0x1000), 0x1_0000);
    assert_eq!(align_up(7, 3), 9);
    assert_eq!(align_up(9, 1), 9);
}

#[test]
fn align_up_reaches_the_top_of_the_range() {
    assert_eq!(align_up(u64::MAX, 1), u64::MAX);
    assert_eq!(align_up(u64::MAX - 0xfff, 0x1000), 0xffff_ffff_ffff_f000);
}

#[test]
fn bit_mask_sets_the_low_bits() {
    assert_eq!(bit_mask(0), 0);
    assert_eq!(bit_mask(1), 1);
    assert_eq!(bit_mask(8), 0xff);
    assert_eq!(bit_mask(63), 0x7fff_ffff_ffff_ffff);
    assert_eq!(bit_mask(64), u64::MAX);
    assert_eq!(bit_mask(200), u64::MAX);
}

#[test]
fn bit_extract_cuts_a_field_out() {
    assert_eq!(bit_extract(0x1234_5678_9abc_def0, 0, 8), 0xf0);
    assert_eq!(bit_extract(0x1234_5678_9abc_def0, 8, 8), 0xde);
    assert_eq!(bit_extract(0x1234_5678_9abc_def0, 56, 8), 0x12);
    assert_eq!(bit_extract(0b1010, 1, 1), 1);
    assert_eq!(bit_extract(0b1010, 2, 1), 0);
    assert_eq!(bit_extract(u64::MAX, 63, 1), 1);
    assert_eq!(bit_extract(u64::MAX, 60, 8), 0xf);
    assert_eq!(bit_extract(0xabcd, 0, 64), 0xabcd);
    assert_eq!(bit_extract(0xabcd, 4, 0), 0);
    assert_eq!(bit_extract(u64::MAX, 64, 8), 0);
    assert_eq!(bit_extract(u64::MAX, 1000, 64), 0);
}

#[test]
fn bit_insert_replaces_a_field() {
    assert_eq!(bit_insert(0, 0xab, 8, 8), 0xab00);
    assert_eq!(bit_insert(u64::MAX, 0, 8, 8), 0xffff_ffff_ffff_00ff);
    assert_eq!(bit_insert(0x1111, 0xfff, 4, 4), 0x11f1);
    assert_eq!(bit_insert(0, 1, 63, 1), 0x8000_0000_0000_0000);
    assert_eq!(bit_insert(0x5, 0x3, 0, 0), 0x5);
    assert_eq!(bit_insert(0x5, 0xdead_beef, 0, 64), 0xdead_beef);
    assert_eq!(bit_insert(0x5, 0xff, 60, 8), 0xf000_0000_0000_0005);
    assert_eq!(bit_insert(0x5, 0xff, 64, 8), 0x5);
    assert_eq!(bit_insert(0x5, 0xff, 1000, 8), 0x5);
}

#[test]
fn a_field_put_in_is_read_back() {
    for width in [1u64, 8] {
        for k in 0..(64 / width) {
            let val = 0xa5 & bit_mask(width);
            let word = bit_insert(0x0123_4567_89ab_cdef, val, k * width, width);
            assert_eq!(bit_extract(word, k * width, width), val);
            for other in 0..(64 / width) {
                if other != k {
                    assert_eq!(
                        bit_extract(word, other * width, width),
                        bit_extract(0x0123_4567_89ab_cdef, other * width, width)
                    );
                }
            }
        }
    }
}
