use double_pendulum::pendulum::DoublePendulum;
use double_pendulum::pendulum::GRAVITY_TENTHS;

#[test]
pub fn create_dobule_pendulum() {
    let double_pendulum = DoublePendulum::new(7788787945454);

    println!("{:?}", double_pendulum);
}

#[test]
fn seeded_state_takes_one_parameter_per_byte() {
    // 7788787945454 is 0x0715_77F0_4FEE: its little-endian bytes are
    // [238, 79, 240, 119, 21, 7, 0, 0], six of which are non-zero.
    let state = DoublePendulum::new(7788787945454);
    assert_eq!(state.length_of_rod, (238, 79));
    assert_eq!(state.mass_of_rod, (240, 119));
    assert_eq!(state.tension_of_rod, (21, 7));
    assert_eq!(state.gravity, GRAVITY_TENTHS);
    assert_eq!(state.seed, 7788787945454);
}

#[test]
fn zero_seed_falls_back_to_default() {
    let state = DoublePendulum::new(0);
    assert_eq!(state, DoublePendulum::default());
}

#[test]
fn five_nonzero_bytes_fall_back_to_default() {
    // 0x01_0101_0101 has exactly five non-zero little-endian bytes.
    let state = DoublePendulum::new(0x01_0101_0101);
    assert_eq!(state, DoublePendulum::default());
    assert_eq!(state.seed, 0);
}

#[test]
fn default_state_is_the_documented_constant() {
    let state = DoublePendulum::default();
    assert_eq!(state.length_of_rod, (10, 10));
    assert_eq!(state.mass_of_rod, (20, 20));
    assert_eq!(state.tension_of_rod, (50, 50));
    assert_eq!(state.gravity, GRAVITY_TENTHS);
    assert_eq!(state.seed, 0);
}

#[test]
fn distinct_well_seeded_states_have_distinct_parameters() {
    // Both seeds have six non-zero bytes and differ in the first byte.
    let a = DoublePendulum::new(0x0101_0101_0101);
    let b = DoublePendulum::new(0x0101_0101_0102);
    assert!(
        a.length_of_rod != b.length_of_rod || a.mass_of_rod != b.mass_of_rod
            || a.tension_of_rod != b.tension_of_rod
    );
    assert_eq!(a.length_of_rod, (1, 1));
    assert_eq!(b.length_of_rod, (2, 1));
}
