use file_prober::identifier::{generate_id, join_groups};
use rand::distributions::{Alphanumeric, DistString};
use rand::rngs::StdRng;
use rand::SeedableRng;

fn matches_shape(id: &str) -> bool {
    let groups: Vec<&str> = id.split('-').collect();
    let lengths: Vec<usize> = groups.iter().map(|g| g.len()).collect();
    lengths == vec![8, 4, 4, 4, 12]
        && groups
            .iter()
            .all(|g| g.chars().all(|c| c.is_ascii_alphanumeric()))
}

#[test]
fn generated_identifiers_have_the_grouped_shape() {
    let mut rng = StdRng::seed_from_u64(7);
    for _ in 0..1000 {
        let id = generate_id(&mut rng);
        assert_eq!(id.len(), 36);
        assert!(matches_shape(&id), "bad identifier {id}");
    }
}

#[test]
fn hyphens_stand_at_fixed_positions() {
    let mut rng = StdRng::seed_from_u64(1);
    let id = generate_id(&mut rng);
    let bytes = id.as_bytes();
    for (i, b) in bytes.iter().enumerate() {
        if i == 8 || i == 13 || i == 18 || i == 23 {
            assert_eq!(*b, b'-');
        } else {
            assert!(b.is_ascii_alphanumeric());
        }
    }
}

#[test]
fn successive_identifiers_differ() {
    let mut rng = StdRng::seed_from_u64(99);
    let a = generate_id(&mut rng);
    let b = generate_id(&mut rng);
    assert_ne!(a, b);
}

#[test]
fn no_position_is_biased_toward_one_character() {
    const ALPHABET: &str = "ABCDEFGHIJKLMNOPQRSTUVWXYZabcdefghijklmnopqrstuvwxyz0123456789";
    let n = 10_000usize;
    let mut rng = StdRng::seed_from_u64(2024);
    let ids: Vec<String> = (0..n).map(|_| generate_id(&mut rng)).collect();
    let expected = n as f64 / ALPHABET.len() as f64;
    for pos in 0..36 {
        if pos == 8 || pos == 13 || pos == 18 || pos == 23 {
            continue;
        }
        let mut counts = vec![0usize; 128];
        for id in &ids {
            counts[id.as_bytes()[pos] as usize] += 1;
        }
        let mut chi_square = 0.0f64;
        for c in ALPHABET.bytes() {
            let diff = counts[c as usize] as f64 - expected;
            chi_square += diff * diff / expected;
        }
        // 61 degrees of freedom: mean 61, standard deviation about 11.
        assert!(chi_square < 140.0, "position {pos}: chi-square {chi_square}");
        let max = ALPHABET.bytes().map(|c| counts[c as usize]).max().unwrap();
        assert!((max as f64) < expected * 1.5, "position {pos}: max count {max}");
    }
}

#[test]
fn groups_are_joined_in_order_by_hyphens() {
    assert_eq!(
        join_groups("ABCD1234", "EFGH", "IJKL", "MNOP", "QRSTUVWXYZ12"),
        "ABCD1234-EFGH-IJKL-MNOP-QRSTUVWXYZ12"
    );
    assert_eq!(join_groups("", "", "", "", ""), "----");
}

#[test]
fn identifier_is_the_draws_in_order() {
    let mut rng = StdRng::seed_from_u64(42);
    let mut same = rng.clone();
    let id = generate_id(&mut rng);
    let draws = Alphanumeric.sample_string(&mut same, 32);
    let expected = format!(
        "{}-{}-{}-{}-{}",
        &draws[0..8],
        &draws[8..12],
        &draws[12..16],
        &draws[16..20],
        &draws[20..32]
    );
    assert_eq!(id, expected);
}
