use programs::keys::{append_bytes, bytes_eq, Pubkey};

#[test]
fn key_eq_compares_all_bytes() {
    let a = Pubkey([1; 32]);
    let mut bytes = [1u8; 32];
    assert!(a.key_eq(&Pubkey(bytes)));
    bytes[31] = 2;
    assert!(!a.key_eq(&Pubkey(bytes)));
    assert_eq!(Pubkey::new_from_array(bytes).to_bytes(), bytes);
}

#[test]
fn bytes_eq_needs_same_length_and_bytes() {
    assert!(bytes_eq(&[1, 2, 3], &[1, 2, 3]));
    assert!(!bytes_eq(&[1, 2, 3], &[1, 2]));
    assert!(!bytes_eq(&[1, 2, 3], &[1, 2, 4]));
    assert!(bytes_eq(&[], &[]));
}

#[test]
fn append_bytes_extends_at_the_end() {
    let mut v = vec![9u8];
    append_bytes(&mut v, &[1, 2]);
    assert_eq!(v, vec![9, 1, 2]);
}
