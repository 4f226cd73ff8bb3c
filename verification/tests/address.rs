use hww_api::ethereum::address::{from_pubkey_hash, with_checksum};

#[test]
fn address_of_recipient() {
    assert_eq!(
        from_pubkey_hash(
            b"\x04\xf2\x64\xcf\x34\x44\x03\x13\xb4\xa0\x19\x2a\x35\x28\x14\xfb\xe9\x27\xb8\x85"
        ),
        "0x04F264Cf34440313B4A0192A352814FBe927b885"
    );
}

#[test]
fn address_of_token_recipients() {
    assert_eq!(
        from_pubkey_hash(
            b"\xe6\xce\x0a\x09\x2a\x99\x70\x0c\xd4\xcc\xcc\xbb\x1f\xed\xc3\x9c\xf5\x3e\x63\x30"
        ),
        "0xE6CE0a092A99700CD4ccCcBb1fEDc39Cf53E6330"
    );
    assert_eq!(
        from_pubkey_hash(
            b"\x85\x7b\x3d\x96\x9e\xac\xb7\x75\xa9\xf7\x9c\xab\xc6\x2e\xc4\xbb\x1d\x1c\xd6\x0e"
        ),
        "0x857B3D969eAcB775a9f79cabc62Ec4bB1D1cd60e"
    );
}

#[test]
fn address_checksum_reference_vectors() {
    assert_eq!(
        from_pubkey_hash(
            b"\x5a\xae\xb6\x05\x3f\x3e\x94\xc9\xb9\xa0\x9f\x33\x66\x94\x35\xe7\xef\x1b\xea\xed"
        ),
        "0x5aAeb6053F3E94C9b9A09f33669435E7Ef1BeAed"
    );
    assert_eq!(
        from_pubkey_hash(
            b"\xfb\x69\x16\x09\x5c\xa1\xdf\x60\xbb\x79\xce\x92\xce\x3e\xa7\x4c\x37\xc5\xd3\x59"
        ),
        "0xfB6916095ca1df60bB79Ce92cE3Ea74c37c5d359"
    );
}

#[test]
fn checksum_raises_letters_by_the_hash() {
    let mut hash = [0u8; 32];
    hash[0] = 0x8f;
    hash[1] = 0x78;
    // a: nibble 8, raised; b: nibble f, raised; 1: a digit, kept; c: nibble 8, raised.
    assert_eq!(with_checksum(b"ab1c", &hash), "0xAB1C");
    // d: nibble 7, kept; 9: a digit; e, f: nibble 0, kept.
    assert_eq!(with_checksum(b"xxd9ef", &[0x77; 32]), "0xxxd9ef");
    assert_eq!(with_checksum(b"", &hash), "0x");
}

#[test]
fn checksum_keeps_what_lies_beyond_the_hash() {
    let hex = [b'a'; 66];
    let text = with_checksum(&hex, &[0xff; 32]);
    assert_eq!(&text[..2], "0x");
    assert_eq!(&text[2..66], "A".repeat(64));
    assert_eq!(&text[66..], "aa");
}
