//! Key derivation (TS 33.220 B.2.0 over HMAC-SHA-256), 128-NIA2 integrity
//! and 5G-AKA challenge generation.
use vstd::prelude::*;

use aes::Aes128;
use cmac::Cmac;
use hmac::{Hmac, Mac};
use milenage::Milenage;
use sha2::Sha256;

verus! {

/// ABBA parameter used in KAMF derivation and in the Authentication Request.
pub const NAS_ABBA: [u8; 2] = [0x00, 0x00];

/// HMAC-SHA-256 of `msg` under `key` (32 bytes).
pub uninterp spec fn hmac_sha256(key: Seq<u8>, msg: Seq<u8>) -> Seq<u8>;

/// AES-128-CMAC of `msg` under `key` (16 bytes).
pub uninterp spec fn aes128_cmac(key: Seq<u8>, msg: Seq<u8>) -> Seq<u8>;

/// Relies on hmac::Hmac<sha2::Sha256>: `new_from_slice` accepts a key of any
/// length, and `finalize` yields the 32-byte HMAC-SHA-256 tag of the input.
#[verifier::external_body]
fn hmac_sha256_tag(key: &[u8], msg: &[u8]) -> (r: [u8; 32])
    ensures
        r@ == hmac_sha256(key@, msg@),
{
    let mut m = <Hmac<Sha256> as Mac>::new_from_slice(key).expect("any key length");
    m.update(msg);
    m.finalize().into_bytes().into()
}

/// Relies on cmac::Cmac<aes::Aes128>: with a 16-byte key, `finalize` yields
/// the 16-byte AES-CMAC tag of the input.
#[verifier::external_body]
fn aes128_cmac_tag(key: &[u8; 16], msg: &[u8]) -> (r: [u8; 16])
    ensures
        r@ == aes128_cmac(key@, msg@),
{
    let mut m = <Cmac<Aes128> as cmac::Mac>::new_from_slice(key).expect("16-byte key");
    m.update(msg);
    m.finalize().into_bytes().into()
}

/// A 16-bit length, big-endian.
pub open spec fn be16(n: nat) -> Seq<u8> {
    seq![(n / 256) as u8, (n % 256) as u8]
}

/// A 32-bit value, big-endian.
pub open spec fn be32(n: u32) -> Seq<u8> {
    seq![
        (n / 0x100_0000) as u8,
        ((n / 0x1_0000) % 256) as u8,
        ((n / 256) % 256) as u8,
        (n % 256) as u8,
    ]
}

/// One KDF input parameter followed by its 16-bit length.
pub open spec fn kdf_param(p: Seq<u8>) -> Seq<u8> {
    p + be16(p.len())
}

/// The key-derivation function of TS 33.220 B.2.0 with one parameter.
pub open spec fn kdf1(key: Seq<u8>, fc: u8, p0: Seq<u8>) -> Seq<u8> {
    hmac_sha256(key, seq![fc] + kdf_param(p0))
}

/// The key-derivation function of TS 33.220 B.2.0 with two parameters.
pub open spec fn kdf2(key: Seq<u8>, fc: u8, p0: Seq<u8>, p1: Seq<u8>) -> Seq<u8> {
    hmac_sha256(key, seq![fc] + kdf_param(p0) + kdf_param(p1))
}

/// The key-derivation function of TS 33.220 B.2.0 with three parameters.
pub open spec fn kdf3(key: Seq<u8>, fc: u8, p0: Seq<u8>, p1: Seq<u8>, p2: Seq<u8>) -> Seq<u8> {
    hmac_sha256(key, seq![fc] + kdf_param(p0) + kdf_param(p1) + kdf_param(p2))
}

/// The last 16 bytes of a 32-byte KDF output.
pub open spec fn low16(k: Seq<u8>) -> Seq<u8> {
    k.subrange(16, 32)
}

/// KAMF = KDF(KSEAF, 0x6D, IMSI, ABBA).
pub open spec fn kamf_spec(kseaf: Seq<u8>, imsi: Seq<u8>) -> Seq<u8> {
    kdf2(kseaf, 0x6D, imsi, NAS_ABBA@)
}

/// KgNB = KDF(KAMF, 0x6E, UL-NAS-COUNT, access type 3GPP).
pub open spec fn kgnb_spec(kamf: Seq<u8>, uplink_nas_count: u32) -> Seq<u8> {
    kdf2(kamf, 0x6E, be32(uplink_nas_count), seq![0x01u8])
}

/// An algorithm key: the low 16 bytes of KDF(key, 0x69, type, algorithm id).
pub open spec fn algorithm_key_spec(input_key: Seq<u8>, type_distinguisher: u8, algorithm_identity: u8) -> Seq<u8> {
    low16(kdf2(input_key, 0x69, seq![type_distinguisher], seq![algorithm_identity]))
}

/// The 128-NIA2 CMAC input: COUNT, BEARER and DIRECTION, three zero bytes, then the message.
pub open spec fn nia2_input(count: Seq<u8>, bearer: u8, direction: u8, message: Seq<u8>) -> Seq<u8> {
    count + seq![(bearer * 8 + direction * 4) as u8, 0u8, 0u8, 0u8] + message
}

/// 128-NIA2 MAC: the first four bytes of the CMAC tag.
pub open spec fn nia2_spec(ik: Seq<u8>, count: Seq<u8>, bearer: u8, direction: u8, message: Seq<u8>) -> Seq<u8> {
    Seq::new(4, |i: int| aes128_cmac(ik, nia2_input(count, bearer, direction, message))[i])
}

/// Appends one KDF parameter and its big-endian 16-bit length.
fn push_kdf_param(msg: &mut Vec<u8>, p: &[u8])
    requires
        p@.len() < 0x1_0000,
    ensures
        final(msg)@ == old(msg)@ + kdf_param(p@),
{
    let len = p.len();
    msg.extend_from_slice(p);
    msg.push((len / 256) as u8);
    msg.push((len % 256) as u8);
    assert(final(msg)@ =~= old(msg)@ + kdf_param(p@));
}

fn low_half(full: &[u8; 32]) -> (r: [u8; 16])
    ensures
        r@ == low16(full@),
{
    let mut r = [0u8; 16];
    let mut i: usize = 0;
    while i < 16
        invariant
            i <= 16,
            r@.len() == 16,
            full@.len() == 32,
            forall|j: int| 0 <= j < i ==> r@[j] == full@[j + 16],
        decreases 16 - i,
    {
        r[i] = full[i + 16];
        i += 1;
    }
    assert(r@ =~= low16(full@));
    r
}

fn be32_bytes(n: u32) -> (r: [u8; 4])
    ensures
        r@ == be32(n),
{
    let r = [(n / 0x100_0000) as u8, ((n / 0x1_0000) % 256) as u8, ((n / 256) % 256) as u8, (n % 256) as u8];
    assert(r@ =~= be32(n));
    r
}

/// KAMF from KSEAF and the IMSI digits (TS 33.501 A.7.0).
pub fn derive_kamf(kseaf: &[u8; 32], imsi: &[u8]) -> (r: [u8; 32])
    requires
        imsi@.len() < 0x1_0000,
    ensures
        r@ == kamf_spec(kseaf@, imsi@),
{
    let mut msg: Vec<u8> = Vec::new();
    msg.push(0x6D);
    push_kdf_param(&mut msg, imsi);
    push_kdf_param(&mut msg, &NAS_ABBA);
    assert(msg@ =~= seq![0x6Du8] + kdf_param(imsi@) + kdf_param(NAS_ABBA@));
    hmac_sha256_tag(kseaf, &msg)
}

/// KgNB from KAMF and the uplink NAS COUNT (TS 33.501 A.9).
pub fn derive_kgnb(kamf: &[u8; 32], uplink_nas_count: u32) -> (r: [u8; 32])
    ensures
        r@ == kgnb_spec(kamf@, uplink_nas_count),
{
    let count = be32_bytes(uplink_nas_count);
    let access_type: [u8; 1] = [0x01];
    let mut msg: Vec<u8> = Vec::new();
    msg.push(0x6E);
    push_kdf_param(&mut msg, &count);
    push_kdf_param(&mut msg, &access_type);
    assert(access_type@ =~= seq![0x01u8]);
    assert(msg@ =~= seq![0x6Eu8] + kdf_param(be32(uplink_nas_count)) + kdf_param(seq![0x01u8]));
    hmac_sha256_tag(kamf, &msg)
}

/// KRRCint for 128-NIA2 from KgNB (TS 33.501 A.8).
pub fn derive_krrcint(kgnb: &[u8; 32]) -> (r: [u8; 16])
    ensures
        r@ == algorithm_key_spec(kgnb@, 0x04, 0x02),
{
    derive_algorithm_key(kgnb, 0x04, 0x02)
}

/// KNASint for 128-NIA2 from KAMF (TS 33.501 A.8).
pub fn derive_knasint(kamf: &[u8; 32]) -> (r: [u8; 16])
    ensures
        r@ == algorithm_key_spec(kamf@, 0x02, 0x02),
{
    derive_algorithm_key(kamf, 0x02, 0x02)
}

/// An algorithm key: the 128 least significant bits of the KDF output.
pub fn derive_algorithm_key(input_key: &[u8; 32], algorithm_type_distinguisher: u8, algorithm_identity: u8) -> (r: [u8; 16])
    ensures
        r@ == algorithm_key_spec(input_key@, algorithm_type_distinguisher, algorithm_identity),
{
    let p0: [u8; 1] = [algorithm_type_distinguisher];
    let p1: [u8; 1] = [algorithm_identity];
    let mut msg: Vec<u8> = Vec::new();
    msg.push(0x69);
    push_kdf_param(&mut msg, &p0);
    push_kdf_param(&mut msg, &p1);
    assert(p0@ =~= seq![algorithm_type_distinguisher]);
    assert(p1@ =~= seq![algorithm_identity]);
    let full = hmac_sha256_tag(input_key, &msg);
    low_half(&full)
}

/// 128-NIA2 (TS 33.401 B.2.3): the first 32 bits of AES-CMAC over
/// COUNT || BEARER || DIRECTION || zero padding || MESSAGE.
pub fn calculate_nia2_mac(
    integrity_key: &[u8; 16],
    count: [u8; 4],
    bearer_identity_5bit: u8,
    direction_1bit: u8,
    message: &[u8],
) -> (r: [u8; 4])
    requires
        bearer_identity_5bit < 32,
        direction_1bit < 2,
    ensures
        r@ == nia2_spec(integrity_key@, count@, bearer_identity_5bit, direction_1bit, message@),
{
    let mut input: Vec<u8> = Vec::new();
    input.extend_from_slice(&count);
    input.push(bearer_identity_5bit * 8 + direction_1bit * 4);
    input.push(0);
    input.push(0);
    input.push(0);
    input.extend_from_slice(message);
    assert(input@ =~= nia2_input(count@, bearer_identity_5bit, direction_1bit, message@));
    let tag = aes128_cmac_tag(integrity_key, &input);
    let r = [tag[0], tag[1], tag[2], tag[3]];
    assert(r@ =~= nia2_spec(integrity_key@, count@, bearer_identity_5bit, direction_1bit, message@));
    r
}

/// Milenage f1: the 8-byte network authentication code MAC-A.
pub uninterp spec fn milenage_f1(k: Seq<u8>, opc: Seq<u8>, rand: Seq<u8>, sqn: Seq<u8>, amf: Seq<u8>) -> Seq<u8>;

/// Milenage f2345: XRES (8 bytes), CK (16), IK (16) and AK (6), in that order.
pub uninterp spec fn milenage_f2345(k: Seq<u8>, opc: Seq<u8>, rand: Seq<u8>) -> Seq<u8>;

/// Relies on milenage::Milenage::f1, on an instance made by `new_with_opc`:
/// MAC-A is a function of K, OPc, RAND, SQN and AMF.
#[verifier::external_body]
fn milenage_mac_a(k: &[u8; 16], opc: &[u8; 16], rand: &[u8; 16], sqn: &[u8; 6], amf: &[u8; 2]) -> (r: [u8; 8])
    ensures
        r@ == milenage_f1(k@, opc@, rand@, sqn@, amf@),
{
    Milenage::new_with_opc(*k, *opc).f1(rand, sqn, amf)
}

/// Relies on milenage::Milenage::f2345, on an instance made by `new_with_opc`:
/// (XRES, CK, IK, AK) is a function of K, OPc and RAND.
#[verifier::external_body]
fn milenage_vectors(k: &[u8; 16], opc: &[u8; 16], rand: &[u8; 16]) -> (r: ([u8; 8], [u8; 16], [u8; 16], [u8; 6]))
    ensures
        milenage_f2345(k@, opc@, rand@) == r.0@ + r.1@ + r.2@ + r.3@,
{
    Milenage::new_with_opc(*k, *opc).f2345(rand)
}

pub assume_specification<T>[ rand::random::<T> ]() -> (r: T)
    where
        rand::distr::StandardUniform: rand::distr::Distribution<T>,
;

/// The authentication management field used in AUTN.
pub const AMF: [u8; 2] = [0x80, 0x00];

/// An authentication challenge for 5G-AKA, with the keys that go with it.
pub struct Challenge {
    pub rand: [u8; 16],
    pub autn: [u8; 16],
    pub xres_star: [u8; 16],
    pub kseaf: [u8; 32],
}

pub open spec fn f2345_xres(k: Seq<u8>, opc: Seq<u8>, rand: Seq<u8>) -> Seq<u8> {
    milenage_f2345(k, opc, rand).subrange(0, 8)
}

/// CK || IK.
pub open spec fn f2345_ck_ik(k: Seq<u8>, opc: Seq<u8>, rand: Seq<u8>) -> Seq<u8> {
    milenage_f2345(k, opc, rand).subrange(8, 40)
}

pub open spec fn f2345_ak(k: Seq<u8>, opc: Seq<u8>, rand: Seq<u8>) -> Seq<u8> {
    milenage_f2345(k, opc, rand).subrange(40, 46)
}

/// SQN xor AK, byte by byte.
pub open spec fn conceal_sqn(sqn: Seq<u8>, ak: Seq<u8>) -> Seq<u8> {
    Seq::new(6, |i: int| sqn[i] ^ ak[i])
}

/// AUTN = (SQN xor AK) || AMF || MAC-A.
pub open spec fn autn_spec(k: Seq<u8>, opc: Seq<u8>, rand: Seq<u8>, sqn: Seq<u8>) -> Seq<u8> {
    conceal_sqn(sqn, f2345_ak(k, opc, rand)) + AMF@ + milenage_f1(k, opc, rand, sqn, AMF@)
}

/// KAUSF = KDF(CK || IK, 0x6A, SNN, SQN xor AK).
pub open spec fn kausf_spec(k: Seq<u8>, opc: Seq<u8>, snn: Seq<u8>, rand: Seq<u8>, sqn: Seq<u8>) -> Seq<u8> {
    kdf2(f2345_ck_ik(k, opc, rand), 0x6A, snn, conceal_sqn(sqn, f2345_ak(k, opc, rand)))
}

/// KSEAF = KDF(KAUSF, 0x6C, SNN).
pub open spec fn kseaf_spec(k: Seq<u8>, opc: Seq<u8>, snn: Seq<u8>, rand: Seq<u8>, sqn: Seq<u8>) -> Seq<u8> {
    kdf1(kausf_spec(k, opc, snn, rand, sqn), 0x6C, snn)
}

/// XRES* = low 16 bytes of KDF(CK || IK, 0x6B, SNN, RAND, XRES).
pub open spec fn xres_star_spec(k: Seq<u8>, opc: Seq<u8>, snn: Seq<u8>, rand: Seq<u8>) -> Seq<u8> {
    low16(kdf3(f2345_ck_ik(k, opc, rand), 0x6B, snn, rand, f2345_xres(k, opc, rand)))
}

/// `c` is the challenge for these credentials, serving network name, SQN and RAND.
pub open spec fn is_challenge(c: Challenge, k: Seq<u8>, opc: Seq<u8>, snn: Seq<u8>, sqn: Seq<u8>, rand: Seq<u8>) -> bool {
    &&& c.rand@ == rand
    &&& c.autn@ == autn_spec(k, opc, rand, sqn)
    &&& c.xres_star@ == xres_star_spec(k, opc, snn, rand)
    &&& c.kseaf@ == kseaf_spec(k, opc, snn, rand, sqn)
}

/// The challenge for a given RAND: Milenage, AUTN, KAUSF, KSEAF and XRES*.
pub fn challenge_for_rand(
    k: &[u8; 16],
    opc: &[u8; 16],
    serving_network_name: &[u8],
    sqn: &[u8; 6],
    rand: [u8; 16],
) -> (r: Challenge)
    requires
        serving_network_name@.len() < 0x1_0000,
    ensures
        is_challenge(r, k@, opc@, serving_network_name@, sqn@, rand@),
{
    let mac = milenage_mac_a(k, opc, &rand, sqn, &AMF);
    let (xres, ck, ik, ak) = milenage_vectors(k, opc, &rand);

    let ghost f = milenage_f2345(k@, opc@, rand@);
    assert(f.subrange(0, 8) =~= xres@);
    assert(f.subrange(8, 40) =~= ck@ + ik@);
    assert(f.subrange(40, 46) =~= ak@);
    let mut autn = [0u8; 16];
    let mut i: usize = 0;
    while i < 6
        invariant
            i <= 6,
            autn@.len() == 16,
            sqn@.len() == 6,
            ak@.len() == 6,
            forall|j: int| 0 <= j < i ==> autn@[j] == sqn@[j] ^ ak@[j],
        decreases 6 - i,
    {
        autn[i] = sqn[i] ^ ak[i];
        i += 1;
    }
    autn[6] = AMF[0];
    autn[7] = AMF[1];
    let mut j: usize = 0;
    while j < 8
        invariant
            j <= 8,
            autn@.len() == 16,
            mac@.len() == 8,
            forall|m: int| 0 <= m < 6 ==> autn@[m] == sqn@[m] ^ ak@[m],
            autn@[6] == AMF@[0] && autn@[7] == AMF@[1],
            forall|m: int| 0 <= m < j ==> autn@[8 + m] == mac@[m],
        decreases 8 - j,
    {
        autn[8 + j] = mac[j];
        j += 1;
    }
    let ghost ak_s = f2345_ak(k@, opc@, rand@);
    assert(autn@.subrange(0, 6) =~= conceal_sqn(sqn@, ak_s));
    assert(autn@ =~= autn_spec(k@, opc@, rand@, sqn@));

    let mut ck_ik: Vec<u8> = Vec::new();
    ck_ik.extend_from_slice(&ck);
    ck_ik.extend_from_slice(&ik);
    assert(ck_ik@ =~= f2345_ck_ik(k@, opc@, rand@));

    let concealed: [u8; 6] = [autn[0], autn[1], autn[2], autn[3], autn[4], autn[5]];
    assert(concealed@ =~= conceal_sqn(sqn@, ak_s));

    let mut kausf_msg: Vec<u8> = Vec::new();
    kausf_msg.push(0x6A);
    push_kdf_param(&mut kausf_msg, serving_network_name);
    push_kdf_param(&mut kausf_msg, &concealed);
    assert(kausf_msg@ =~= seq![0x6Au8] + kdf_param(serving_network_name@) + kdf_param(concealed@));
    let kausf = hmac_sha256_tag(&ck_ik, &kausf_msg);

    let mut kseaf_msg: Vec<u8> = Vec::new();
    kseaf_msg.push(0x6C);
    push_kdf_param(&mut kseaf_msg, serving_network_name);
    assert(kseaf_msg@ =~= seq![0x6Cu8] + kdf_param(serving_network_name@));
    let kseaf = hmac_sha256_tag(&kausf, &kseaf_msg);

    let mut xres_star_msg: Vec<u8> = Vec::new();
    xres_star_msg.push(0x6B);
    push_kdf_param(&mut xres_star_msg, serving_network_name);
    push_kdf_param(&mut xres_star_msg, &rand);
    push_kdf_param(&mut xres_star_msg, &xres);
    assert(xres_star_msg@ =~= seq![0x6Bu8] + kdf_param(serving_network_name@) + kdf_param(rand@) + kdf_param(xres@));
    let xres_star_full = hmac_sha256_tag(&ck_ik, &xres_star_msg);
    let xres_star = low_half(&xres_star_full);

    Challenge { rand, autn, xres_star, kseaf }
}

/// Draws a fresh RAND and builds the challenge for it. SQN is left as it is.
pub fn generate_challenge(
    k: &[u8; 16],
    opc: &[u8; 16],
    serving_network_name: &[u8],
    sqn: &mut [u8; 6],
) -> (r: Challenge)
    requires
        serving_network_name@.len() < 0x1_0000,
    ensures
        *final(sqn) == *old(sqn),
        is_challenge(r, k@, opc@, serving_network_name@, old(sqn)@, r.rand@),
{
    let rand: [u8; 16] = rand::random();
    challenge_for_rand(k, opc, serving_network_name, sqn, rand)
}

/// Challenge generation is deterministic: the same K, OPc, serving network
/// name, RAND and SQN give the same KSEAF and XRES*.
pub proof fn lemma_challenge_deterministic(
    c1: Challenge,
    c2: Challenge,
    k: Seq<u8>,
    opc: Seq<u8>,
    snn: Seq<u8>,
    sqn: Seq<u8>,
    rand: Seq<u8>,
)
    requires
        is_challenge(c1, k, opc, snn, sqn, rand),
        is_challenge(c2, k, opc, snn, sqn, rand),
    ensures
        c1.kseaf@ == c2.kseaf@,
        c1.xres_star@ == c2.xres_star@,
        c1.autn@ == c2.autn@,
{
}

} // verus!
