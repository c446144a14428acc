//! The deterministic draw stream: the library's positional model must
//! agree with the ChaCha8 reference stream itself.

use datagen_core::rng::RandomSource;
use rand_chacha::ChaCha8Rng;
use rand_chacha::rand_core::RngCore;
use rand_chacha::rand_core::SeedableRng;

#[test]
fn sequential_draws_match_the_reference_chacha_stream() {
    let mut reference = ChaCha8Rng::seed_from_u64(12345);
    let mut src = RandomSource::new(12345);
    for i in 0..32 {
        let expected = reference.next_u64();
        let got = src.next_u64();
        assert_eq!(got, expected, "word {i} diverged from the reference stream");
    }
}

#[test]
fn draws_are_positional_not_stateful() {
    // Reading the stream at position 5 directly gives the same word as
    // five sequential draws would have produced next.
    let mut sequential = RandomSource::new(777);
    for _ in 0..5 {
        sequential.next_u64();
    }
    let mut direct = RandomSource { seed: 777, pos: 5 };
    let mut sequential_word = sequential;
    assert_eq!(sequential_word.next_u64(), direct.next_u64());
}

#[test]
fn different_seeds_give_different_streams() {
    let mut a = RandomSource::new(1);
    let mut b = RandomSource::new(2);
    let words_a: Vec<u64> = (0..8).map(|_| a.next_u64()).collect();
    let words_b: Vec<u64> = (0..8).map(|_| b.next_u64()).collect();
    assert_ne!(words_a, words_b);
}

#[test]
fn bounded_draws_respect_their_ranges() {
    let mut src = RandomSource::new(99);
    for _ in 0..50 {
        let below = src.next_below(7);
        assert!(below < 7);
    }
    for _ in 0..50 {
        let ranged = src.next_range(10, 20);
        assert!((10..=20).contains(&ranged));
    }
    for _ in 0..50 {
        let jitter = src.next_jitter_milli(200);
        assert!((800..=1200).contains(&jitter));
    }
    for _ in 0..50 {
        let noise = src.next_noise(50);
        assert!((-50..=50).contains(&noise));
    }
    for _ in 0..50 {
        let roll = src.next_roll_ppm();
        assert!(roll < 1_000_000);
    }
}
