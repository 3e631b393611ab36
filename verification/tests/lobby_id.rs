use pong::lobby_id_generator::LobbyIdGenerator;

#[test]
fn distinct_by_key() {
    let key = [0; 32];
    let mut lobby_id_generator = LobbyIdGenerator::new(&key);
    assert_eq!(lobby_id_generator.next_id(), "H5MS");
    assert_eq!(lobby_id_generator.next_id(), "EK9F");
    assert_eq!(lobby_id_generator.next_id(), "FWSI");
    assert_eq!(lobby_id_generator.next_id(), "5B4M");
    let key = [1; 32];
    let mut lobby_id_generator = LobbyIdGenerator::new(&key);
    assert_eq!(lobby_id_generator.next_id(), "B4RL");
    assert_eq!(lobby_id_generator.next_id(), "X9UE");
    assert_eq!(lobby_id_generator.next_id(), "2E9J");
    assert_eq!(lobby_id_generator.next_id(), "ELIX");
}

#[test]
fn ids_use_the_restricted_alphabet() {
    let key = [7; 32];
    let mut lobby_id_generator = LobbyIdGenerator::new(&key);
    for _ in 0..256 {
        let id = lobby_id_generator.next_id();
        assert_eq!(id.len(), 4);
        for c in id.chars() {
            assert!(('2'..='9').contains(&c) || ('A'..='Z').contains(&c));
            assert!(c != '0' && c != '1');
        }
    }
}

#[test]
fn same_counter_same_id() {
    let key = [42; 32];
    let mut first = LobbyIdGenerator::new(&key);
    let mut second = LobbyIdGenerator::new(&key);
    for _ in 0..32 {
        assert_eq!(first.next_id(), second.next_id());
    }
}

#[test]
fn encryption_changes_the_digits() {
    // With the identity in place of the keyed permutation, counter zero would
    // map to the four lowest digits, i.e. "2222"; the golden value above
    // shows it must not. Here: no early prefix of ids repeats, while a plain
    // counter remapping would walk the alphabet in order.
    let key = [0; 32];
    let mut lobby_id_generator = LobbyIdGenerator::new(&key);
    let first = lobby_id_generator.next_id();
    assert_ne!(first, "2222");
    let second = lobby_id_generator.next_id();
    assert_ne!(second, "3222");
    assert_ne!(first, second);
}
