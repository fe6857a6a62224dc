use similarium::mt::MersenneTwister;
use similarium::picker::SecretPicker;

/// A stand-in candidate list of 5000 entries. The named words sit at the
/// positions that seeded MT19937 sampling without replacement of the whole
/// list (as `random.Random(seed).sample` performs it) places at the seeds
/// and indices used below.
fn vocabulary() -> Vec<String> {
    let mut words: Vec<String> = (0..5000).map(|i| format!("filler{i:04}")).collect();
    for (pos, word) in [
        (4045, "tie"),
        (236, "ski"),
        (1899, "inspiration"),
        (2834, "art"),
        (781, "warning"),
        (4941, "colony"),
        (1110, "dependent"),
    ] {
        words[pos] = word.to_string();
    }
    words
}

#[test]
fn test_randbelow() {
    let seed = [1234u32];
    let mut rng = MersenneTwister::seeded(&seed);
    let picker = SecretPicker::new("foobarbaz", vocabulary());

    assert_eq!(picker.randbelow(&mut rng, 10), 7);
    assert_eq!(picker.randbelow(&mut rng, 10), 1);
    assert_eq!(picker.randbelow(&mut rng, 10), 0);
}

#[test]
fn test_randbelow_of_zero_draws_nothing() {
    let seed = [1234u32];
    let mut rng = MersenneTwister::seeded(&seed);
    let picker = SecretPicker::new("foobarbaz", vocabulary());

    assert_eq!(picker.randbelow(&mut rng, 0), 0);
    assert_eq!(picker.randbelow(&mut rng, 10), 7);
}

#[test]
fn test_get_secret_is_idempotent() {
    let seed = "foobarbaz";
    let picker = SecretPicker::new(seed, vocabulary());

    let target_word = picker.get_secret(10);
    let target_word2 = picker.get_secret(10);

    assert_eq!(target_word, "tie");
    assert_eq!(target_word2, "tie");
}

#[test]
fn test_get_secret_matches_python_rng() {
    let seed = "foobarbaz";
    let picker = SecretPicker::new(seed, vocabulary());

    assert_eq!(picker.get_secret(1234), "ski");
    assert_eq!(picker.get_secret(1), "inspiration");
    assert_eq!(picker.get_secret(4099), "art");

    let seed = "is this real life";
    let picker = SecretPicker::new(seed, vocabulary());

    assert_eq!(picker.get_secret(1234), "warning");
    assert_eq!(picker.get_secret(1), "colony");
    assert_eq!(picker.get_secret(4099), "dependent");
}

#[test]
fn test_picker_wraps_around_list_length() {
    let picker = SecretPicker::new("foobarbaz", vocabulary());
    assert_eq!(picker.get_secret(5000 + 1234), "ski");
    assert_eq!(picker.get_secret(10 + 5000), picker.get_secret(10));
}

#[test]
fn test_picker_is_same_across_pickers_with_one_seed() {
    let first = SecretPicker::new("is this real life", vocabulary());
    let second = SecretPicker::new("is this real life", vocabulary());
    for idx in [0u32, 1, 7, 1234, 4999] {
        assert_eq!(first.get_secret(idx), second.get_secret(idx));
    }
}

#[test]
fn test_picker_orders_whole_list_without_repeats() {
    let words: Vec<String> = (0..50).map(|i| format!("w{i}")).collect();
    let picker = SecretPicker::new("seed", words.clone());
    let mut picked: Vec<String> = (0..50).map(|i| picker.get_secret(i).to_string()).collect();
    picked.sort();
    let mut expected = words;
    expected.sort();
    assert_eq!(picked, expected);
}

#[test]
fn test_picker_with_single_word() {
    let picker = SecretPicker::new("", vec!["only".to_string()]);
    assert_eq!(picker.get_secret(0), "only");
    assert_eq!(picker.get_secret(u32::MAX), "only");
}
