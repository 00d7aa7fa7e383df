use steamidfx::bit_iterator::BitIterator;
use steamidfx::bit_iterator::bits;

#[test]
fn bit_iterator_eight_byte_walk() {
    let num: u64 = 76561197983318796;
    let mut iter = BitIterator::new(num, 8);
    assert_eq!(iter.next(), Some(1));
    assert_eq!(iter.next(), Some(16));
    assert_eq!(iter.next(), Some(0));
    assert_eq!(iter.next(), Some(1));
    assert_eq!(iter.next(), Some(1));
    assert_eq!(iter.next(), Some(95));
    assert_eq!(iter.next(), Some(195));
    assert_eq!(iter.next(), Some(12));
    assert_eq!(iter.next(), None);
    // Once exhausted, the iterator stays exhausted.
    assert_eq!(iter.next(), None);
}

#[test]
fn bit_iterator_field_widths_walk() {
    // The five widths of the packed id layout sum to exactly 64 bits.
    let num: u64 = 76561197983318796;
    let mut iter = BitIterator::new(num, 8);
    assert_eq!(iter.next(), Some(1)); // universe
    assert_eq!(iter.next_bits(4), Some(1)); // account type
    assert_eq!(iter.next_bits(20), Some(1)); // instance
    assert_eq!(iter.next_bits(31), Some(11526534)); // account
    assert_eq!(iter.next_bits(1), Some(0)); // authentication server
    assert_eq!(iter.next(), None);
}

#[test]
fn bit_iterator_premature_end_when_widths_overrun() {
    // 8 + 60 > 64: the second read cannot retreat the cursor and yields
    // nothing, leaving the remaining 56 bits unread.
    let mut iter = BitIterator::new(u64::MAX, 8);
    assert_eq!(iter.next(), Some(0xff));
    iter.change_iter_length(56);
    assert_eq!(iter.next(), Some(0xff_ffff_ffff_ffff));
    assert_eq!(iter.next(), None);
}

#[test]
fn bit_iterator_full_width() {
    let mut iter = BitIterator::new(0x0123_4567_89ab_cdef, 64);
    assert_eq!(iter.next(), Some(0x0123_4567_89ab_cdef));
    assert_eq!(iter.next(), None);
}

#[test]
fn bits_extracts_named_ranges() {
    // 0xA5 == 0b1010_0101
    assert_eq!(bits(0xa5, 8, 4), 0xa);
    assert_eq!(bits(0xa5, 4, 4), 0x5);
    assert_eq!(bits(0xa5, 8, 8), 0xa5);
    assert_eq!(bits(u64::MAX, 64, 64), u64::MAX);
    assert_eq!(bits(u64::MAX, 64, 0), 0);
}
