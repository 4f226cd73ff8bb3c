use hww_api::bip32::{to_string, HARDENED};

#[test]
fn keypath_as_text() {
    assert_eq!(
        to_string(&[44 + HARDENED, 60 + HARDENED, 0 + HARDENED, 0, 0]),
        "m/44'/60'/0'/0/0"
    );
    assert_eq!(to_string(&[]), "m/");
    assert_eq!(to_string(&[0]), "m/0");
    assert_eq!(to_string(&[HARDENED]), "m/0'");
    assert_eq!(to_string(&[10, 99 + HARDENED, 100]), "m/10/99'/100");
}

#[test]
fn keypath_extremes() {
    assert_eq!(HARDENED, 0x8000_0000);
    assert_eq!(to_string(&[HARDENED - 1]), "m/2147483647");
    assert_eq!(to_string(&[u32::MAX]), "m/2147483647'");
    assert_eq!(to_string(&[u32::MAX, 0]), "m/2147483647'/0");
    assert_eq!(to_string(&[1_000_000_000]), "m/1000000000");
}
