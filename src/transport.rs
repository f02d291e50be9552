//! Transport-layer addresses as F1AP carries them: the address bytes as a
//! bit string, most significant bit first.
use vstd::prelude::*;

use bitvec::order::Msb0;
use bitvec::vec::BitVec;

verus! {

/// A transport-layer address bit string. bitvec's `BitVec` is bounded by
/// bitvec's own traits, which cannot be declared to the verifier, so the
/// bit-vector is kept in a hidden field and read through `address_storage`.
#[verifier::external_body]
pub struct TransportLayerAddress {
    bits: BitVec<u8, Msb0>,
}

/// The memory elements that hold the address's bits.
pub uninterp spec fn address_storage(a: TransportLayerAddress) -> Seq<u8>;

/// Relies on bitvec::vec::BitVec::from_slice: the slice is copied into a new
/// bit-vector that spans it whole.
#[verifier::external_body]
fn bits_from_bytes(b: &[u8]) -> (r: TransportLayerAddress)
    requires
        b@.len() <= 16,
    ensures
        address_storage(r) == b@,
{
    TransportLayerAddress { bits: BitVec::<u8, Msb0>::from_slice(b) }
}

/// Relies on bitvec::vec::BitVec::into_vec: the bit-vector's storage elements.
#[verifier::external_body]
fn bytes_from_bits(a: TransportLayerAddress) -> (r: Vec<u8>)
    ensures
        r@ == address_storage(a),
{
    a.bits.into_vec()
}

/// An IPv4 or IPv6 address.
#[derive(Clone, Copy, Debug)]
pub enum IpAddress {
    V4([u8; 4]),
    V6([u8; 16]),
}

impl IpAddress {
    pub open spec fn octets(self) -> Seq<u8> {
        match self {
            IpAddress::V4(o) => o@,
            IpAddress::V6(o) => o@,
        }
    }
}

/// Why a transport-layer address is not an IP address.
#[derive(Clone, Copy, Debug, PartialEq, Eq, Structural)]
pub enum TransportAddressError {
    /// Neither 4 nor 16 bytes long.
    BadLength,
}

/// The IP address whose octets these are, if there is one.
pub open spec fn ip_of_octets(b: Seq<u8>) -> Option<IpAddress> {
    if b.len() == 4 {
        Some(IpAddress::V4([b[0], b[1], b[2], b[3]]))
    } else if b.len() == 16 {
        Some(IpAddress::V6([
            b[0], b[1], b[2], b[3], b[4], b[5], b[6], b[7],
            b[8], b[9], b[10], b[11], b[12], b[13], b[14], b[15],
        ]))
    } else {
        None
    }
}

impl TransportLayerAddress {
    pub open spec fn view(&self) -> Seq<u8> {
        address_storage(*self)
    }

    /// The bit string of an IP address.
    pub fn from_ip(ip: IpAddress) -> (r: TransportLayerAddress)
        ensures
            r@ == ip.octets(),
    {
        match ip {
            IpAddress::V4(o) => bits_from_bytes(&o),
            IpAddress::V6(o) => bits_from_bytes(&o),
        }
    }

    /// The bit string whose storage is these bytes.
    pub fn from_bytes(b: &[u8]) -> (r: TransportLayerAddress)
        requires
            b@.len() <= 16,
        ensures
            r@ == b@,
    {
        bits_from_bytes(b)
    }

    /// The IP address that the bit string holds.
    pub fn to_ip(self) -> (r: Result<IpAddress, TransportAddressError>)
        ensures
            match r {
                Ok(ip) => ip_of_octets(self@) == Some(ip),
                Err(e) => ip_of_octets(self@) is None && e == TransportAddressError::BadLength,
            },
    {
        let v = bytes_from_bits(self);
        if v.len() == 4 {
            let o: [u8; 4] = [v[0], v[1], v[2], v[3]];
            Ok(IpAddress::V4(o))
        } else if v.len() == 16 {
            let o: [u8; 16] = [
                v[0], v[1], v[2], v[3], v[4], v[5], v[6], v[7],
                v[8], v[9], v[10], v[11], v[12], v[13], v[14], v[15],
            ];
            Ok(IpAddress::V6(o))
        } else {
            Err(TransportAddressError::BadLength)
        }
    }
}

/// An IP address turned into a transport-layer bit string and back is the
/// same address.
pub proof fn lemma_transport_address_round_trip(ip: IpAddress, a: TransportLayerAddress)
    requires
        a@ == ip.octets(),
    ensures
        ip_of_octets(a@) == Some(ip),
{
    match ip {
        IpAddress::V4(o) => {
            assert(o@.len() == 4);
            assert([o@[0], o@[1], o@[2], o@[3]] =~= o);
        },
        IpAddress::V6(o) => {
            assert(o@.len() == 16);
            assert([
                o@[0], o@[1], o@[2], o@[3], o@[4], o@[5], o@[6], o@[7],
                o@[8], o@[9], o@[10], o@[11], o@[12], o@[13], o@[14], o@[15],
            ] =~= o);
        },
    }
}

} // verus!
