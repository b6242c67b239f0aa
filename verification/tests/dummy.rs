use oneoneseven::dummy::{generate_dummy_object, random_printable};

#[test]
fn dummies_are_printable_and_of_the_right_size() {
    let first = generate_dummy_object();
    let second = generate_dummy_object();
    for dummy in [&first, &second] {
        assert!((420_069..=1_000_000).contains(&dummy.len()));
        assert!(dummy.iter().all(|byte| (b' '..=b'~').contains(byte)));
    }
    assert_ne!(first, second);
}

#[test]
fn printable_bytes_come_in_the_size_asked_for() {
    let mut rng = rand::rng();
    assert!(random_printable(0, &mut rng).is_empty());
    let bytes = random_printable(10_000, &mut rng);
    assert_eq!(bytes.len(), 10_000);
    for byte in b' '..=b'~' {
        assert!(bytes.contains(&byte));
    }
}
