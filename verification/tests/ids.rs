use rbin::id::{check_id_char, generate, validate, ID_LENGTH};

#[test]
fn generated_id_is_fixed_length_alphanumeric() {
    for _ in 0..100 {
        let id = generate();
        assert_eq!(id.chars().count(), ID_LENGTH);
        assert!(id.chars().all(|c| c.is_ascii_alphanumeric()));
    }
}

#[test]
fn generated_id_passes_validation() {
    let id = generate();
    assert!(validate(id.as_str()));
}

#[test]
fn validate_accepts_well_formed_ids() {
    assert!(validate("aZ3kq9"));
    assert!(validate("000000"));
    assert!(validate("AAAAAA"));
    assert!(validate("zzzzzz"));
}

#[test]
fn validate_rejects_wrong_length() {
    assert!(!validate(""));
    assert!(!validate("abcde"));
    assert!(!validate("abcdefg"));
    assert!(!validate("aZ3kq9X"));
}

#[test]
fn validate_rejects_non_alphanumeric_characters() {
    assert!(!validate("../etc"));
    assert!(!validate("ab cd!"));
    assert!(!validate("a/b.c_"));
    assert!(!validate("aZ3kq."));
}

#[test]
fn validate_rejects_non_ascii_letters() {
    let candidate = "aZ3kq\u{e9}";
    assert_eq!(candidate.chars().count(), ID_LENGTH);
    assert!(!validate(candidate));
}

#[test]
fn id_character_class_is_ascii_alphanumeric() {
    assert!(check_id_char('a'));
    assert!(check_id_char('Z'));
    assert!(check_id_char('0'));
    assert!(check_id_char('9'));
    assert!(!check_id_char('.'));
    assert!(!check_id_char('/'));
    assert!(!check_id_char(' '));
    assert!(!check_id_char('\u{e9}'));
}
