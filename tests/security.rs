use hmac::{Hmac, Mac};
use qcore::security::{
    calculate_nia2_mac, challenge_for_rand, derive_algorithm_key, derive_kamf, derive_kgnb, derive_knasint,
    derive_krrcint, generate_challenge,
};
use sha2::Sha256;

fn hex(s: &str) -> Vec<u8> {
    let digits: Vec<u8> = s.bytes().filter(|c| !c.is_ascii_whitespace()).collect();
    digits
        .chunks(2)
        .map(|p| u8::from_str_radix(std::str::from_utf8(p).unwrap(), 16).unwrap())
        .collect()
}

fn arr<const N: usize>(s: &str) -> [u8; N] {
    hex(s).try_into().unwrap()
}

fn hmac_sha256(key: &[u8], msg: &[u8]) -> [u8; 32] {
    let mut m = <Hmac<Sha256> as Mac>::new_from_slice(key).unwrap();
    m.update(msg);
    m.finalize().into_bytes().into()
}

#[test]
fn test_nia2_mac_test_set_2() {
    let count: [u8; 4] = arr("398a59b4");
    let bearer = 0b11010;
    let direction = 0b1;
    let ik: [u8; 16] = arr("d3 c5 d5 92 32 7f b1 1c 40 35 c6 68 0a f8 c6 d1");
    let message = hex("48 45 83 d5 af e0 82 ae");
    let expected_cmac: [u8; 4] = arr("b93787e6");
    let cmac = calculate_nia2_mac(&ik, count, bearer, direction, &message);
    assert_eq!(cmac, expected_cmac);
}

#[test]
fn nia2_depends_on_bearer_and_direction() {
    let ik: [u8; 16] = arr("d3 c5 d5 92 32 7f b1 1c 40 35 c6 68 0a f8 c6 d1");
    let count: [u8; 4] = arr("398a59b4");
    let message = hex("48 45 83 d5 af e0 82 ae");
    let reference = calculate_nia2_mac(&ik, count, 0b11010, 1, &message);
    assert_ne!(calculate_nia2_mac(&ik, count, 0b11010, 0, &message), reference);
    assert_ne!(calculate_nia2_mac(&ik, count, 0b11011, 1, &message), reference);
}

#[test]
fn kamf_is_kdf_over_imsi_and_abba() {
    let kseaf = [0x11u8; 32];
    let imsi = b"001010123456789";
    let mut msg = vec![0x6d];
    msg.extend_from_slice(imsi);
    msg.extend_from_slice(&[0x00, 15, 0x00, 0x00, 0x00, 0x02]);
    assert_eq!(derive_kamf(&kseaf, imsi), hmac_sha256(&kseaf, &msg));
}

#[test]
fn kgnb_is_kdf_over_uplink_count() {
    let kamf = [0x22u8; 32];
    let msg = [0x6e, 0x01, 0x02, 0x03, 0x04, 0x00, 0x04, 0x01, 0x00, 0x01];
    assert_eq!(derive_kgnb(&kamf, 0x01020304), hmac_sha256(&kamf, &msg));
}

#[test]
fn algorithm_keys_are_low_half_of_kdf() {
    let key = [0x33u8; 32];
    let full_rrc = hmac_sha256(&key, &[0x69, 0x04, 0x00, 0x01, 0x02, 0x00, 0x01]);
    let full_nas = hmac_sha256(&key, &[0x69, 0x02, 0x00, 0x01, 0x02, 0x00, 0x01]);
    assert_eq!(derive_krrcint(&key)[..], full_rrc[16..]);
    assert_eq!(derive_knasint(&key)[..], full_nas[16..]);
    assert_eq!(derive_algorithm_key(&key, 0x04, 0x02), derive_krrcint(&key));
    assert_ne!(derive_krrcint(&key), derive_knasint(&key));
}

// Milenage test set 1 (TS 35.208): AK, CK, IK and RES do not depend on AMF.
const K: &str = "465b5ce8b199b49faa5f0a2ee238a6bc";
const OPC: &str = "cd63cb71954a9f4e48a5994e37a02baf";
const RAND: &str = "23553cbe9637a89d218ae64dae47bf35";

#[test]
fn challenge_matches_milenage_and_kdf() {
    let k: [u8; 16] = arr(K);
    let opc: [u8; 16] = arr(OPC);
    let rand: [u8; 16] = arr(RAND);
    let snn = b"5G:mnc001.mcc001.3gppnetwork.org";
    let sqn = [0u8; 6];
    let c = challenge_for_rand(&k, &opc, snn, &sqn, rand);
    let ak = hex("aa689c648370");
    let ck = hex("b40ba9a3c58b2a05bbf0d987b21bf8cb");
    let ik = hex("f769bcd751044604127672711c6d3441");
    let res = hex("a54211d5e3ba50bf");
    assert_eq!(c.rand, rand);
    // SQN is zero, so the concealed SQN is AK itself.
    assert_eq!(c.autn[0..6], ak[..]);
    assert_eq!(c.autn[6..8], [0x80, 0x00]);

    let ck_ik = [ck.clone(), ik.clone()].concat();
    let mut kausf_msg = vec![0x6a];
    kausf_msg.extend_from_slice(snn);
    kausf_msg.extend_from_slice(&[0x00, snn.len() as u8]);
    kausf_msg.extend_from_slice(&ak);
    kausf_msg.extend_from_slice(&[0x00, 0x06]);
    let kausf = hmac_sha256(&ck_ik, &kausf_msg);
    let mut kseaf_msg = vec![0x6c];
    kseaf_msg.extend_from_slice(snn);
    kseaf_msg.extend_from_slice(&[0x00, snn.len() as u8]);
    assert_eq!(c.kseaf, hmac_sha256(&kausf, &kseaf_msg));

    let mut xres_msg = vec![0x6b];
    xres_msg.extend_from_slice(snn);
    xres_msg.extend_from_slice(&[0x00, snn.len() as u8]);
    xres_msg.extend_from_slice(&rand);
    xres_msg.extend_from_slice(&[0x00, 0x10]);
    xres_msg.extend_from_slice(&res);
    xres_msg.extend_from_slice(&[0x00, 0x08]);
    assert_eq!(c.xres_star[..], hmac_sha256(&ck_ik, &xres_msg)[16..]);
}

#[test]
fn challenge_is_deterministic() {
    let k: [u8; 16] = arr(K);
    let opc: [u8; 16] = arr(OPC);
    let rand: [u8; 16] = arr(RAND);
    let snn = b"5G:mnc001.mcc001.3gppnetwork.org";
    let sqn = [0u8, 0, 0, 0, 0, 1];
    let a = challenge_for_rand(&k, &opc, snn, &sqn, rand);
    let b = challenge_for_rand(&k, &opc, snn, &sqn, rand);
    assert_eq!(a.kseaf, b.kseaf);
    assert_eq!(a.xres_star, b.xres_star);
    assert_eq!(a.autn, b.autn);
}

#[test]
fn generated_challenge_keeps_sqn_and_fits_its_rand() {
    let k: [u8; 16] = arr(K);
    let opc: [u8; 16] = arr(OPC);
    let snn = b"5G:mnc001.mcc001.3gppnetwork.org";
    let mut sqn = [0u8; 6];
    let c = generate_challenge(&k, &opc, snn, &mut sqn);
    assert_eq!(sqn, [0u8; 6]);
    let again = challenge_for_rand(&k, &opc, snn, &sqn, c.rand);
    assert_eq!(c.kseaf, again.kseaf);
    assert_eq!(c.xres_star, again.xres_star);
    assert_eq!(c.autn, again.autn);
}
