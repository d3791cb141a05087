use palette_seed::seed::Draw;
use palette_seed::Seed;
use std::time::{SystemTime, UNIX_EPOCH};

fn now_nanos() -> u128 {
    SystemTime::now().duration_since(UNIX_EPOCH).unwrap().as_nanos()
}

#[test]
fn from_seed_keeps_the_seed() {
    let s = Seed::from_seed(0xDEAD_BEEF);
    assert_eq!(s.seed(), 0xDEAD_BEEF);
}

#[test]
fn new_truncates_the_time_to_64_bits() {
    let s = Seed::new((1u128 << 64) + 7);
    assert_eq!(s.seed(), 7);
    let t = Seed::new(123_456_789);
    assert_eq!(t.seed(), 123_456_789);
}

#[test]
fn new_from_the_clock_twice_differs() {
    let mut a = Seed::new(now_nanos());
    let mut b = Seed::new(now_nanos());
    assert_ne!(a.seed(), b.seed());
    assert_ne!(a.next_u64(), b.next_u64());
}

#[test]
fn same_seed_gives_same_sequence() {
    let mut a = Seed::from_seed(42);
    let mut b = Seed::from_seed(42);
    for i in 0..1000u64 {
        assert_eq!(a.next_u32(), b.next_u32());
        assert_eq!(a.next_u64(), b.next_u64());
        assert_eq!(a.gen_range(i..i + 17), b.gen_range(i..i + 17));
    }
}

#[test]
fn drawing_does_not_change_the_seed() {
    let mut a = Seed::from_seed(99);
    a.next_u32();
    a.next_u64();
    a.gen_range(0..3);
    assert_eq!(a.seed(), 99);
}

#[test]
fn different_seeds_give_different_values() {
    let mut a = Seed::from_seed(1);
    let mut b = Seed::from_seed(2);
    assert_ne!(a.next_u64(), b.next_u64());
}

#[test]
fn next_u64_is_not_the_seed() {
    let mut a = Seed::from_seed(5);
    let first = a.next_u64();
    let second = a.next_u64();
    assert_ne!(first, 5);
    assert_ne!(first, second);
}

#[test]
fn gen_range_stays_in_range() {
    let mut a = Seed::from_seed(3);
    for _ in 0..10_000 {
        let x = a.gen_range(10..20);
        assert!((10..20).contains(&x));
    }
    assert_eq!(a.gen_range(5..6), 5);
}

#[test]
fn gen_range_covers_every_value() {
    let mut a = Seed::from_seed(8);
    let mut seen = [false; 6];
    for _ in 0..1000 {
        seen[a.gen_range(0..6) as usize] = true;
    }
    assert!(seen.iter().all(|s| *s));
}

#[test]
fn gen_range_accepts_the_widest_range() {
    let mut a = Seed::from_seed(4);
    let x = a.gen_range(0..u64::MAX);
    assert!(x < u64::MAX);
}

#[test]
fn gen_range_inclusive_reaches_both_ends() {
    let mut a = Seed::from_seed(21);
    let mut seen = [false; 3];
    for _ in 0..1000 {
        let x = a.gen_range_inclusive(4..=6);
        assert!((4..=6).contains(&x));
        seen[(x - 4) as usize] = true;
    }
    assert!(seen.iter().all(|s| *s));
    assert_eq!(a.gen_range_inclusive(9..=9), 9);
    let y = a.gen_range_inclusive(0..=u64::MAX);
    let _ = y;
}

#[test]
fn gen_range_inclusive_repeats_with_the_seed() {
    let mut a = Seed::from_seed(77);
    let mut b = Seed::from_seed(77);
    for _ in 0..100 {
        assert_eq!(a.gen_range_inclusive(1..=1000), b.gen_range_inclusive(1..=1000));
    }
}

#[test]
fn clone_replays_the_same_draws() {
    let mut a = Seed::from_seed(13);
    a.next_u64();
    let mut b = a.clone();
    assert_eq!(b.seed(), 13);
    for _ in 0..100 {
        assert_eq!(a.next_u64(), b.next_u64());
        assert_eq!(a.gen_range(0..50), b.gen_range(0..50));
    }
}

#[test]
fn try_gen_range_rejects_an_empty_range() {
    let mut a = Seed::from_seed(31);
    let mut b = Seed::from_seed(31);
    assert_eq!(a.try_gen_range(5..3), None);
    assert_eq!(a.try_gen_range(4..4), None);
    assert_eq!(a.next_u64(), b.next_u64());
    let x = a.try_gen_range(2..9).unwrap();
    assert!((2..9).contains(&x));
    assert_eq!(Some(x), b.try_gen_range(2..9));
}

#[test]
fn try_gen_range_inclusive_rejects_a_reversed_range() {
    let mut a = Seed::from_seed(37);
    assert_eq!(a.try_gen_range_inclusive(6, 5), None);
    assert_eq!(a.try_gen_range_inclusive(5, 5), Some(5));
    let x = a.try_gen_range_inclusive(1, 3).unwrap();
    assert!((1..=3).contains(&x));
}

#[test]
fn replay_matches_calls_made_one_by_one() {
    let calls = vec![
        Draw::U32,
        Draw::U64,
        Draw::Range { start: 10, end: 20 },
        Draw::RangeInclusive { start: 0, end: 1 },
        Draw::U64,
    ];
    let mut a = Seed::from_seed(41);
    let mut b = Seed::from_seed(41);
    let values = a.replay(&calls);
    assert_eq!(values.len(), 5);
    assert_eq!(values[0], b.next_u32() as u64);
    assert_eq!(values[1], b.next_u64());
    assert_eq!(values[2], b.gen_range(10..20));
    assert_eq!(values[3], b.gen_range_inclusive(0..=1));
    assert_eq!(values[4], b.next_u64());
    assert_eq!(a.next_u64(), b.next_u64());
}

#[test]
fn replay_repeats_with_the_seed() {
    let calls = vec![Draw::Range { start: 0, end: 1000 }; 200];
    let mut a = Seed::from_seed(43);
    let mut b = Seed::from_seed(43);
    assert_eq!(a.replay(&calls), b.replay(&calls));
    assert_eq!(a.draw(Draw::U32), b.draw(Draw::U32));
}
