use solana_programs::keys::{key_is_none, keys_equal};

#[test]
fn keys_equal_compares_every_byte() {
    let a = [3u8; 32];
    let mut b = [3u8; 32];
    assert!(keys_equal(&a, &b));
    b[31] = 4;
    assert!(!keys_equal(&a, &b));
    b[31] = 3;
    b[0] = 0;
    assert!(!keys_equal(&a, &b));
}

#[test]
fn only_the_zero_key_is_none() {
    assert!(key_is_none(&[0u8; 32]));
    let mut k = [0u8; 32];
    k[17] = 1;
    assert!(!key_is_none(&k));
}
