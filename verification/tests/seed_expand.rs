use double_pendulum::seed_expand::decimal_digits;
use double_pendulum::seed_expand::expand_seed;
use double_pendulum::seed_expand::expand_seed_text;
use double_pendulum::seed_expand::random_seed;
use double_pendulum::seed_expand::ExpandedSeed;
use double_pendulum::seed_expand::SeedTooShort;

#[test]
fn short_seed_is_rejected() {
    assert_eq!(expand_seed("short".as_bytes()), Err(SeedTooShort));
}

#[test]
fn thirty_one_bytes_are_rejected() {
    let seed = [7u8; 31];
    assert_eq!(expand_seed(&seed), Err(SeedTooShort));
}

#[test]
fn thirty_two_characters_succeed() {
    let seed = "exampleexample123456789qwertyuio".as_bytes();
    assert_eq!(seed.len(), 32);
    assert!(expand_seed(seed).is_ok());
}

#[test]
fn documented_example_seed_succeeds() {
    assert!(expand_seed("example123456789qwertyuiopasdfghj".as_bytes()).is_ok());
}

#[test]
fn textual_seeds_expand_like_their_bytes() {
    let text = "0123456789abcdef0123456789abcdef";
    assert_eq!(expand_seed_text(text), expand_seed(text.as_bytes()));
    assert_eq!(expand_seed_text("short"), Err(SeedTooShort));
}

#[test]
fn expansion_diffuses_the_last_quarter_block_bytes() {
    // The key bytes at the last in-block indexes are '7', 'f', '7', 'f'
    // (0x37, 0x66, 0x37, 0x66), so the pairwise XORs are alternately
    // non-zero and zero.
    let expanded = expand_seed("0123456789abcdef0123456789abcdef".as_bytes()).unwrap();
    let expected = ExpandedSeed {
        length_first: 1,
        length_second: 0,
        mass_first: 1,
        mass_second: 1,
        tension_first: 0,
        tension_second: 3,
        radius: 31,
    };
    assert_eq!(expanded, expected);
}

#[test]
fn all_zero_key_yields_all_zero_parameters() {
    let seed = [0u8; 32];
    let expanded = expand_seed(&seed).unwrap();
    let expected = ExpandedSeed {
        length_first: 0,
        length_second: 0,
        mass_first: 0,
        mass_second: 0,
        tension_first: 0,
        tension_second: 0,
        radius: 0,
    };
    assert_eq!(expanded, expected);
}

#[test]
fn bytes_past_the_key_are_ignored() {
    let mut long_a = [3u8; 48];
    let mut long_b = [3u8; 48];
    long_a[40] = 101;
    long_b[40] = 202;
    assert_eq!(expand_seed(&long_a), expand_seed(&long_b));
    assert_eq!(expand_seed(&long_a), expand_seed(&long_a[..32]));
}

#[test]
fn random_seed_yields_nothing_on_success_and_failure_alike() {
    assert_eq!(random_seed("short".as_bytes()), None);
    assert_eq!(random_seed("0123456789abcdef0123456789abcdef".as_bytes()), None);
}

#[test]
fn decimal_rendering_is_exact() {
    assert_eq!(decimal_digits(0), b"0".to_vec());
    assert_eq!(decimal_digits(7), b"7".to_vec());
    assert_eq!(decimal_digits(12345), b"12345".to_vec());
    assert_eq!(decimal_digits(u64::MAX), b"18446744073709551615".to_vec());
}
