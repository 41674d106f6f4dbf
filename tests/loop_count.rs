use mnt_prepared::loop_count::{bit_length, limb_bits, walked_bits};

fn set_count(bits: &[bool]) -> usize {
    bits.iter().filter(|b| **b).count()
}

#[test]
fn positive_counter_walks_three_bits_with_two_set() {
    let bits = walked_bits(&vec![0b1011]);
    assert_eq!(bits, vec![false, true, true]);
    // one doubling per walked bit, one addition per set bit
    assert_eq!(bits.len(), 3);
    assert_eq!(set_count(&bits), 2);
}

#[test]
fn negative_counter_has_the_same_walk() {
    // the sign adds a trailing addition step only: the walked bits are those of the magnitude
    let bits = walked_bits(&vec![0b1011]);
    assert_eq!(bits.len(), 3);
    assert_eq!(set_count(&bits) + 1, 3);
}

#[test]
fn empty_counter_walks_nothing() {
    assert_eq!(walked_bits(&vec![]), Vec::<bool>::new());
}

#[test]
fn counter_of_one_walks_nothing() {
    assert_eq!(walked_bits(&vec![1]), Vec::<bool>::new());
}

#[test]
fn full_limb_drops_only_the_leading_bit() {
    assert_eq!(walked_bits(&vec![u64::MAX]), vec![true; 63]);
}

#[test]
fn lower_limbs_keep_all_sixty_four_bits() {
    let bits = walked_bits(&vec![0b101, 0b10]);
    let mut expected = vec![false];
    expected.extend(vec![false; 61]);
    expected.extend(vec![true, false, true]);
    assert_eq!(bits.len(), 1 + 64);
    assert_eq!(bits, expected);
}

#[test]
fn zero_top_limb_contributes_no_bits() {
    let bits = walked_bits(&vec![0b11, 0]);
    let mut expected = vec![false; 62];
    expected.extend(vec![true, true]);
    assert_eq!(bits, expected);
}

#[test]
fn bit_length_counts_significant_bits() {
    assert_eq!(bit_length(0), 0);
    assert_eq!(bit_length(1), 1);
    assert_eq!(bit_length(0b1011), 4);
    assert_eq!(bit_length(u64::MAX), 64);
    assert_eq!(bit_length(1u64 << 40), 41);
}

#[test]
fn limb_bits_are_most_significant_first() {
    assert_eq!(limb_bits(0b1011, 4), vec![true, false, true, true]);
    assert_eq!(limb_bits(0b1011, 3), vec![false, true, true]);
    assert_eq!(limb_bits(0b1011, 0), Vec::<bool>::new());
    assert_eq!(limb_bits(1u64 << 63, 64)[0], true);
}
