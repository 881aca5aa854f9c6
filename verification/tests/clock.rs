use double_pendulum::clock::seed_from_tick;
use double_pendulum::clock::EntropySeedFactory;
use double_pendulum::clock::Time;

#[test]
pub fn create_seed() {
    for _ in 1..10 {
        println!("{}", EntropySeedFactory::create_seed());
    }
}

#[test]
fn seed_from_tick_squares_and_scales() {
    assert_eq!(seed_from_tick(0), 0);
    assert_eq!(seed_from_tick(3), 90);
    assert_eq!(seed_from_tick(1000), 10_000_000);
}

#[test]
fn seed_from_tick_wraps_silently() {
    // 2 to the 32nd squares to 2 to the 64th, which wraps to zero.
    assert_eq!(seed_from_tick(1 << 32), 0);
    // The largest 64-bit value squares, wrapping, to one.
    assert_eq!(seed_from_tick(u64::MAX as u128), 10);
    // Only the low 64 bits of the tick count take part.
    assert_eq!(seed_from_tick((1u128 << 64) + 3), 90);
}

#[test]
fn successive_seeds_differ() {
    let first = EntropySeedFactory::create_seed();
    let second = EntropySeedFactory::create_seed();
    assert_ne!(first, second);
}

#[test]
fn ticks_never_decrease() {
    let timer = Time::new();
    let earlier = timer.get_tick();
    let later = timer.get_tick();
    assert!(later >= earlier);
}

#[test]
fn wall_clock_values_do_not_fail_twice_in_a_row() {
    let first = double_pendulum::clock::random();
    let second = double_pendulum::clock::random();
    assert!(first.is_ok() || second.is_ok());
    // On a sane host both readings lie after the epoch.
    assert!(first.is_ok());
    assert!(second.is_ok());
    assert!(first.unwrap() > 0);
}
