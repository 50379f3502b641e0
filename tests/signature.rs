use starknet_signer::signature::der_signature_parts;

fn der(r: &[u8], s: &[u8]) -> Vec<u8> {
    let mut out = vec![0x30, (4 + r.len() + s.len()) as u8, 0x02, r.len() as u8];
    out.extend_from_slice(r);
    out.push(0x02);
    out.push(s.len() as u8);
    out.extend_from_slice(s);
    out
}

#[test]
fn der_signature_full_width_and_sign_padded() {
    let mut r = vec![0u8];
    r.extend_from_slice(&[0x80u8; 32]);
    let s = vec![0x11u8; 32];
    let (rr, ss) = der_signature_parts(&der(&r, &s)).unwrap();
    assert_eq!(rr.value, [0x80u8; 32]);
    assert_eq!(ss.value, [0x11u8; 32]);
}

#[test]
fn der_signature_short_integers_are_padded() {
    let (rr, ss) = der_signature_parts(&der(&[1, 2], &[3])).unwrap();
    let mut want_r = [0u8; 32];
    want_r[30] = 1;
    want_r[31] = 2;
    let mut want_s = [0u8; 32];
    want_s[31] = 3;
    assert_eq!(rr.value, want_r);
    assert_eq!(ss.value, want_s);
}

#[test]
fn der_signature_malformed_is_refused() {
    assert!(der_signature_parts(&[]).is_none());
    let mut bad_tag = der(&[1], &[2]);
    bad_tag[0] = 0x31;
    assert!(der_signature_parts(&bad_tag).is_none());
    let mut bad_int = der(&[1], &[2]);
    bad_int[5] = 0x03;
    assert!(der_signature_parts(&bad_int).is_none());
    let truncated = der(&[1, 2, 3], &[4, 5]);
    assert!(der_signature_parts(&truncated[..truncated.len() - 1]).is_none());
    let mut wide = vec![1u8];
    wide.extend_from_slice(&[0u8; 32]);
    assert!(der_signature_parts(&der(&wide, &[1])).is_none());
    assert!(der_signature_parts(&der(&[], &[1])).is_none());
}
