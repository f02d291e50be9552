//! Subscriber and network identities: the IMSI carried in a SUPI mobile
//! identity, and the PLMN and serving network name formed from MCC and MNC.
use vstd::prelude::*;

use crate::nas::NasError;

verus! {

/// The identity that a Registration Request carries.
pub struct MobileIdentity {
    pub imsi: String,
    pub plmn: [u8; 3],
}

/// The character of a decimal digit.
pub open spec fn digit_char(d: u8) -> char {
    if d == 0 { '0' } else if d == 1 { '1' } else if d == 2 { '2' } else if d == 3 { '3' }
    else if d == 4 { '4' } else if d == 5 { '5' } else if d == 6 { '6' } else if d == 7 { '7' }
    else if d == 8 { '8' } else { '9' }
}

/// A nibble in decimal: one character below ten, else two.
pub open spec fn nibble_text(n: u8) -> Seq<char> {
    if n < 10 {
        seq![digit_char(n)]
    } else {
        seq!['1', digit_char((n - 10) as u8)]
    }
}

/// The decimal text of a sequence of nibbles.
pub open spec fn nibbles_text(ns: Seq<u8>) -> Seq<char>
    decreases ns.len(),
{
    if ns.len() == 0 {
        seq![]
    } else {
        nibbles_text(ns.drop_last()) + nibble_text(ns.last())
    }
}

/// The MCC and MNC digits of a TBCD PLMN; the filler of a two-digit MNC is dropped.
pub open spec fn plmn_nibbles(p: Seq<u8>) -> Seq<u8> {
    seq![p[0] % 16, p[0] / 16, p[1] % 16]
        + (if p[1] / 16 != 15 { seq![p[1] / 16] } else { seq![] })
        + seq![p[2] % 16, p[2] / 16]
}

/// The MSIN digits, low nibble first in each byte.
pub open spec fn msin_nibbles(m: Seq<u8>) -> Seq<u8>
    decreases m.len(),
{
    if m.len() == 0 {
        seq![]
    } else {
        msin_nibbles(m.drop_last()) + seq![m.last() % 16, m.last() / 16]
    }
}

/// The IMSI text of a SUPI mobile identity IE value.
pub open spec fn supi_imsi(v: Seq<u8>) -> Seq<char> {
    nibbles_text(plmn_nibbles(v.subrange(1, 4)) + msin_nibbles(v.subrange(8, v.len() as int)))
}

fn digit_str(d: u8) -> (r: &'static str)
    requires
        d < 10,
    ensures
        r@ == seq![digit_char(d)],
{
    if d == 0 { proof { reveal_strlit("0"); } "0" }
    else if d == 1 { proof { reveal_strlit("1"); } "1" }
    else if d == 2 { proof { reveal_strlit("2"); } "2" }
    else if d == 3 { proof { reveal_strlit("3"); } "3" }
    else if d == 4 { proof { reveal_strlit("4"); } "4" }
    else if d == 5 { proof { reveal_strlit("5"); } "5" }
    else if d == 6 { proof { reveal_strlit("6"); } "6" }
    else if d == 7 { proof { reveal_strlit("7"); } "7" }
    else if d == 8 { proof { reveal_strlit("8"); } "8" }
    else { proof { reveal_strlit("9"); } "9" }
}

/// Writes the nibbles in decimal.
fn nibbles_to_string(ns: &Vec<u8>) -> (r: String)
    requires
        forall|i: int| 0 <= i < ns@.len() ==> ns@[i] < 16,
    ensures
        r@ == nibbles_text(ns@),
{
    let mut s = String::new();
    let mut i: usize = 0;
    while i < ns.len()
        invariant
            i <= ns@.len(),
            forall|j: int| 0 <= j < ns@.len() ==> ns@[j] < 16,
            s@ == nibbles_text(ns@.subrange(0, i as int)),
        decreases ns@.len() - i,
    {
        let n = ns[i];
        if n < 10 {
            s.append(digit_str(n));
        } else {
            s.append(digit_str(1));
            s.append(digit_str(n - 10));
        }
        assert(ns@.subrange(0, i + 1).drop_last() =~= ns@.subrange(0, i as int));
        i += 1;
    }
    assert(ns@.subrange(0, ns@.len() as int) =~= ns@);
    s
}

/// The IMSI and PLMN of a 5GS mobile identity IE whose type is SUPI.
pub fn fgs_mobile_identity(mobile_identity_ie: &[u8]) -> (r: Result<MobileIdentity, NasError>)
    ensures
        mobile_identity_ie@.len() < 12 ==> r == Err::<MobileIdentity, NasError>(NasError::MobileIdentityTooShort),
        mobile_identity_ie@.len() >= 12 && mobile_identity_ie@[0] != 0x01 ==> r == Err::<MobileIdentity, NasError>(NasError::NotSupi),
        mobile_identity_ie@.len() >= 12 && mobile_identity_ie@[0] == 0x01 ==> (r matches Ok(id)
            && id.plmn@ == mobile_identity_ie@.subrange(1, 4)
            && id.imsi@ == supi_imsi(mobile_identity_ie@)),
{
    if mobile_identity_ie.len() < 12 {
        return Err(NasError::MobileIdentityTooShort);
    }
    if mobile_identity_ie[0] != 0x01 {
        return Err(NasError::NotSupi);
    }
    let plmn: [u8; 3] = [mobile_identity_ie[1], mobile_identity_ie[2], mobile_identity_ie[3]];
    assert(plmn@ =~= mobile_identity_ie@.subrange(1, 4));

    let mut imsi: Vec<u8> = Vec::new();
    imsi.push(plmn[0] % 16);
    imsi.push(plmn[0] / 16);
    imsi.push(plmn[1] % 16);
    if plmn[1] / 16 != 0xf {
        imsi.push(plmn[1] / 16);
    }
    imsi.push(plmn[2] % 16);
    imsi.push(plmn[2] / 16);
    assert(imsi@ =~= plmn_nibbles(plmn@));

    let ghost head = imsi@;
    let ghost msin = mobile_identity_ie@.subrange(8, mobile_identity_ie@.len() as int);
    let mut k: usize = 8;
    while k < mobile_identity_ie.len()
        invariant
            8 <= k <= mobile_identity_ie@.len(),
            msin == mobile_identity_ie@.subrange(8, mobile_identity_ie@.len() as int),
            imsi@ == head + msin_nibbles(msin.subrange(0, k - 8)),
            forall|j: int| 0 <= j < imsi@.len() ==> imsi@[j] < 16,
        decreases mobile_identity_ie@.len() - k,
    {
        let b = mobile_identity_ie[k];
        imsi.push(b % 16);
        imsi.push(b / 16);
        assert(msin.subrange(0, k + 1 - 8).drop_last() =~= msin.subrange(0, k - 8));
        assert(imsi@ =~= head + msin_nibbles(msin.subrange(0, k + 1 - 8)));
        k += 1;
    }
    assert(msin.subrange(0, msin.len() as int) =~= msin);
    let imsi = nibbles_to_string(&imsi);
    Ok(MobileIdentity { imsi, plmn })
}

/// Why MCC and MNC could not be turned into a PLMN.
#[derive(Clone, Copy, Debug, PartialEq, Eq, Structural)]
pub enum PlmnError {
    /// The MCC is not three characters long.
    MccLength,
    /// The MNC is not two or three characters long.
    MncLength,
    /// The MCC holds something other than a decimal digit.
    MccNotDigit,
    /// The MNC holds something other than a decimal digit.
    MncNotDigit,
}

pub open spec fn is_digit(c: u8) -> bool {
    48 <= c <= 57
}

pub open spec fn all_digits(s: Seq<u8>) -> bool {
    forall|i: int| 0 <= i < s.len() ==> is_digit(#[trigger] s[i])
}

/// The TBCD digits of MCC and MNC, with filler 0xF for a two-digit MNC.
pub open spec fn plmn_digits(mcc: Seq<u8>, mnc: Seq<u8>) -> Seq<u8> {
    let m = mcc.map_values(|c: u8| (c - 48) as u8);
    let n = mnc.map_values(|c: u8| (c - 48) as u8);
    if mnc.len() == 2 { m + seq![0x0fu8] + n } else { m + n }
}

/// The 3-byte PLMN: each byte holds two digits, the first in the low nibble.
pub open spec fn plmn_of(mcc: Seq<u8>, mnc: Seq<u8>) -> Seq<u8> {
    let d = plmn_digits(mcc, mnc);
    seq![(d[1] * 16 + d[0]) as u8, (d[3] * 16 + d[2]) as u8, (d[5] * 16 + d[4]) as u8]
}

/// "5G:mnc<MNC, zero-padded to three digits>.mcc<MCC>.3gppnetwork.org", in ASCII.
pub open spec fn serving_network_name_of(mcc: Seq<u8>, mnc: Seq<u8>) -> Seq<u8> {
    seq![0x35u8, 0x47, 0x3a, 0x6d, 0x6e, 0x63]
        + (if mnc.len() == 2 { seq![0x30u8] } else { seq![] })
        + mnc
        + seq![0x2eu8, 0x6d, 0x63, 0x63]
        + mcc
        + seq![0x2eu8, 0x33, 0x67, 0x70, 0x70, 0x6e, 0x65, 0x74, 0x77, 0x6f, 0x72, 0x6b, 0x2e, 0x6f, 0x72, 0x67]
}

fn check_digits(s: &[u8]) -> (r: bool)
    ensures
        r == all_digits(s@),
{
    let mut i: usize = 0;
    while i < s.len()
        invariant
            i <= s@.len(),
            forall|j: int| 0 <= j < i ==> is_digit(#[trigger] s@[j]),
        decreases s@.len() - i,
    {
        if s[i] < 48 || s[i] > 57 {
            return false;
        }
        i += 1;
    }
    true
}

/// The PLMN and serving network name for an MCC and MNC given as ASCII text.
pub fn convert_mcc_mnc(mcc: &[u8], mnc: &[u8]) -> (r: Result<([u8; 3], Vec<u8>), PlmnError>)
    ensures
        mcc@.len() != 3 ==> r == Err::<([u8; 3], Vec<u8>), PlmnError>(PlmnError::MccLength),
        mcc@.len() == 3 && mnc@.len() != 2 && mnc@.len() != 3
            ==> r == Err::<([u8; 3], Vec<u8>), PlmnError>(PlmnError::MncLength),
        mcc@.len() == 3 && (mnc@.len() == 2 || mnc@.len() == 3) && !all_digits(mcc@)
            ==> r == Err::<([u8; 3], Vec<u8>), PlmnError>(PlmnError::MccNotDigit),
        mcc@.len() == 3 && (mnc@.len() == 2 || mnc@.len() == 3) && all_digits(mcc@) && !all_digits(mnc@)
            ==> r == Err::<([u8; 3], Vec<u8>), PlmnError>(PlmnError::MncNotDigit),
        mcc@.len() == 3 && (mnc@.len() == 2 || mnc@.len() == 3) && all_digits(mcc@) && all_digits(mnc@)
            ==> (r matches Ok((plmn, snn)) && plmn@ == plmn_of(mcc@, mnc@)
                && snn@ == serving_network_name_of(mcc@, mnc@)),
{
    if mcc.len() != 3 {
        return Err(PlmnError::MccLength);
    }
    if mnc.len() != 2 && mnc.len() != 3 {
        return Err(PlmnError::MncLength);
    }
    if !check_digits(mcc) {
        return Err(PlmnError::MccNotDigit);
    }
    if !check_digits(mnc) {
        return Err(PlmnError::MncNotDigit);
    }
    let mut digits: Vec<u8> = Vec::new();
    digits.push(mcc[0] - 48);
    digits.push(mcc[1] - 48);
    digits.push(mcc[2] - 48);
    if mnc.len() == 2 {
        digits.push(0x0f);
        digits.push(mnc[0] - 48);
        digits.push(mnc[1] - 48);
    } else {
        digits.push(mnc[0] - 48);
        digits.push(mnc[1] - 48);
        digits.push(mnc[2] - 48);
    }
    assert(is_digit(mcc@[0]) && is_digit(mcc@[1]) && is_digit(mcc@[2]));
    assert(is_digit(mnc@[0]) && is_digit(mnc@[1]));
    assert(mnc@.len() == 3 ==> is_digit(mnc@[2]));
    assert(digits@ =~= plmn_digits(mcc@, mnc@));
    let plmn: [u8; 3] = [
        digits[1] * 16 + digits[0],
        digits[3] * 16 + digits[2],
        digits[5] * 16 + digits[4],
    ];
    assert(plmn@ =~= plmn_of(mcc@, mnc@));

    let mut snn: Vec<u8> = Vec::new();
    let prefix: [u8; 6] = [0x35, 0x47, 0x3a, 0x6d, 0x6e, 0x63];
    snn.extend_from_slice(&prefix);
    if mnc.len() == 2 {
        snn.push(0x30);
    }
    snn.extend_from_slice(mnc);
    let dot_mcc: [u8; 4] = [0x2e, 0x6d, 0x63, 0x63];
    snn.extend_from_slice(&dot_mcc);
    snn.extend_from_slice(mcc);
    let suffix: [u8; 16] = [0x2e, 0x33, 0x67, 0x70, 0x70, 0x6e, 0x65, 0x74, 0x77, 0x6f, 0x72, 0x6b, 0x2e, 0x6f, 0x72, 0x67];
    snn.extend_from_slice(&suffix);
    assert(snn@ =~= serving_network_name_of(mcc@, mnc@));
    Ok((plmn, snn))
}

} // verus!
