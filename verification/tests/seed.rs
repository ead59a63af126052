use wifi_fetch::seed::stack_seed;

#[test]
fn the_first_word_is_the_upper_half() {
    assert_eq!(stack_seed(1, 2), 0x0000_0001_0000_0002);
    assert_eq!(stack_seed(0xdead_beef, 0x0123_4567), 0xdead_beef_0123_4567);
}

#[test]
fn the_ends_of_the_seeds_are_reached() {
    assert_eq!(stack_seed(0, 0), 0);
    assert_eq!(stack_seed(u32::MAX, u32::MAX), u64::MAX);
    assert_eq!(stack_seed(0, u32::MAX), 0xffff_ffff);
    assert_eq!(stack_seed(u32::MAX, 0), 0xffff_ffff_0000_0000);
}

#[test]
fn swapped_words_give_another_seed() {
    assert_ne!(stack_seed(7, 9), stack_seed(9, 7));
}
