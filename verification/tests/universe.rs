use rate_sync::standard_codes::{standard_codes, STANDARD_CODES};
use rate_sync::universe::{DuplicateCode, Universe};

fn list(codes: &[&str]) -> Vec<String> {
    codes.iter().map(|code| code.to_string()).collect()
}

#[test]
fn universe_keeps_the_order_of_the_list() {
    let universe = Universe::new(list(&["USD", "EUR", "AED"])).unwrap();
    assert_eq!(universe.len(), 3);
    assert_eq!(universe.code(0), "USD");
    assert_eq!(universe.code(1), "EUR");
    assert_eq!(universe.code(2), "AED");
    assert_eq!(universe.get(2), Some("AED"));
    assert_eq!(universe.get(3), None);
}

#[test]
fn empty_universe_is_a_universe() {
    let universe = Universe::new(Vec::new()).unwrap();
    assert_eq!(universe.len(), 0);
    assert_eq!(universe.get(0), None);
}

#[test]
fn repeated_code_is_refused_at_its_second_place() {
    assert_eq!(
        Universe::new(list(&["USD", "EUR", "USD", "EUR"])).err(),
        Some(DuplicateCode { position: 2 })
    );
    assert_eq!(Universe::new(list(&["USD", "USD"])).err(), Some(DuplicateCode { position: 1 }));
    assert_eq!(
        Universe::new(list(&["A", "B", "C", "D", "D"])).err(),
        Some(DuplicateCode { position: 4 })
    );
}

#[test]
fn codes_that_differ_in_case_are_different() {
    assert!(Universe::new(list(&["USD", "usd", "Usd"])).is_ok());
}

#[test]
fn standard_codes_are_the_168_of_the_table() {
    let codes = standard_codes();
    assert_eq!(codes.len(), 168);
    assert_eq!(STANDARD_CODES.len(), 168);
    assert_eq!(codes[0], "AED");
    assert_eq!(codes[46], "EUR");
    assert_eq!(codes[149], "USD");
    assert_eq!(codes[167], "ZWL");
    for (code, standard) in codes.iter().zip(STANDARD_CODES.iter()) {
        assert_eq!(code, standard);
        assert_eq!(code.len(), 3);
    }
}

#[test]
fn standard_codes_make_a_universe() {
    let universe = Universe::new(standard_codes()).unwrap();
    assert_eq!(universe.len(), 168);
    assert_eq!(universe.code(21), "BTC");
}

#[test]
fn standard_universe_lists_the_standard_codes() {
    let universe = Universe::standard();
    assert_eq!(universe.len(), 168);
    for (at, code) in STANDARD_CODES.iter().enumerate() {
        assert_eq!(universe.code(at), *code);
    }
    assert_eq!(universe.get(168), None);
}
