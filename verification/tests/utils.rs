use passchain::utils::{b64, base_x, hash, keyscript};

#[test]
fn sha2_256_of_abc() {
    assert_eq!(
        hex::encode(hash::sha2_256(b"abc")),
        "ba7816bf8f01cfea414140de5dae2223b00361a396177a9cb410ff61f20015ad"
    );
}

#[test]
fn sha3_512_of_abc() {
    assert_eq!(
        hex::encode(hash::sha3_512(b"abc")),
        "b751850b1a57168a5693cd924b6b096e08f621827444f70d884f5d0240d2712e\
         10e116e9192af3c91a7ec57647e3934057340b4cf408d5a56592f8274eec53f0"
    );
}

#[test]
fn blake3_64_of_nothing() {
    let out = hash::blake3_64(b"");
    assert_eq!(
        hex::encode(&out[..32]),
        "af1349b9f5f9a1a6a0404dea36dcc9499bcb25c9adc112b7cc9a93cae41f3262"
    );
    let mut reader = blake3::Hasher::new().finalize_xof();
    let mut direct = [0u8; 64];
    reader.fill(&mut direct);
    assert_eq!(out, direct);
    assert_ne!(out[32..], out[..32]);
}

#[test]
fn b64enc_pads_and_uses_url_alphabet() {
    assert_eq!(base_x::b64enc(b""), "");
    assert_eq!(base_x::b64enc(b"f"), "Zg==");
    assert_eq!(base_x::b64enc(b"foobar"), "Zm9vYmFy");
    assert_eq!(base_x::b64enc(&[0xfb, 0xff]), "-_8=");
    assert_eq!(b64::b64enc(&[0xfb, 0xff]), "-_8=");
}

#[test]
fn b64dec_reads_what_b64enc_wrote() {
    assert_eq!(base_x::b64dec("Zm9vYmFy").unwrap(), b"foobar".to_vec());
    assert_eq!(base_x::b64dec("-_8=").unwrap(), vec![0xfb, 0xff]);
    assert_eq!(b64::b64dec("Zg==").unwrap(), b"f".to_vec());
    let bytes: Vec<u8> = (0u8..=255).collect();
    assert_eq!(base_x::b64dec(&base_x::b64enc(&bytes)).unwrap(), bytes);
}

#[test]
fn b64dec_refuses_other_text() {
    assert!(base_x::b64dec("Zg").is_err());
    assert!(base_x::b64dec("+/8=").is_err());
    assert!(b64::b64dec("not base64!").is_err());
}

#[test]
fn b93_char_follows_the_table() {
    assert_eq!(base_x::b93_char(0), '0');
    assert_eq!(base_x::b93_char(9), '9');
    assert_eq!(base_x::b93_char(10), 'a');
    assert_eq!(base_x::b93_char(35), 'z');
    assert_eq!(base_x::b93_char(36), 'A');
    assert_eq!(base_x::b93_char(48), 'M');
    assert_eq!(base_x::b93_char(49), 'M');
    assert_eq!(base_x::b93_char(50), 'O');
    assert_eq!(base_x::b93_char(61), 'Z');
    assert_eq!(base_x::b93_char(62), '~');
    assert_eq!(base_x::b93_char(92), '?');
    assert_eq!(base_x::b93_char(93), ' ');
    assert_eq!(base_x::b93_char(255), ' ');
}

#[test]
fn b93_write_maps_digit_by_digit() {
    assert_eq!(base_x::b93_write(&[]), "");
    assert_eq!(base_x::b93_write(&[0, 10, 36, 92, 93]), "0aA? ");
}

#[test]
fn b93enc_rewrites_the_radix() {
    // 1 is the digit 1; 93 is 0 + 1 * 93; 256 is 70 + 2 * 93; 255 is 69 + 2 * 93.
    assert_eq!(base_x::b93enc(&[1]), "1");
    assert_eq!(base_x::b93enc(&[93]), "01");
    assert_eq!(base_x::b93enc(&[0, 1]), "*2");
    assert_eq!(base_x::b93enc(&[255]), "&2");
}

#[test]
fn early_stage_is_a_leading_one() {
    assert!(keyscript::is_early_stage("1"));
    assert!(keyscript::is_early_stage("1\n"));
    assert!(keyscript::is_early_stage("10"));
    assert!(!keyscript::is_early_stage(""));
    assert!(!keyscript::is_early_stage("0"));
    assert!(!keyscript::is_early_stage(" 1"));
    assert!(!keyscript::is_early_stage("é1"));
}
