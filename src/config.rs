//! Configuration of the core, fixed at start-up.
use vstd::prelude::*;

use crate::transport::IpAddress;

verus! {

pub struct Config {
    /// The F1 address, for both F1-C and F1-U.
    pub ip_addr: IpAddress,
    /// gNB-CU name signalled in the F1 Setup Response.
    pub name: Option<String>,
    pub plmn: [u8; 3],
    /// Serving network name, ASCII.
    pub serving_network_name: Vec<u8>,
    /// SST of the one slice.
    pub sst: u8,
    /// Test switch: accept any RES* from the UE.
    pub skip_ue_authentication_check: bool,
    /// AMF region, set and pointer.
    pub amf_ids: [u8; 3],
    /// Name of the N6 tun device.
    pub n6_tun_name: String,
    /// The /24 UE subnet.
    pub ue_subnet: [u8; 4],
}

/// Why a configuration value was refused.
#[derive(Clone, Copy, Debug, PartialEq, Eq, Structural)]
pub enum ConfigError {
    /// The final byte of the UE subnet is not 0.
    UeSubnetHostBits,
    /// The local address is unspecified (all zeros).
    UnspecifiedLocalIp,
}

/// The UE subnet is a /24 network address: its final byte must be 0.
pub fn check_ue_subnet(ue_subnet: [u8; 4]) -> (r: Result<(), ConfigError>)
    ensures
        r is Ok <==> ue_subnet[3] == 0,
        r is Err ==> r == Err::<(), ConfigError>(ConfigError::UeSubnetHostBits),
{
    if ue_subnet[3] != 0 {
        return Err(ConfigError::UeSubnetHostBits);
    }
    Ok(())
}

/// The local address must be one that the DU can send to: not 0.0.0.0 or ::.
pub fn check_local_ip(ip: IpAddress) -> (r: Result<(), ConfigError>)
    ensures
        r is Ok <==> exists|i: int| 0 <= i < ip.octets().len() && ip.octets()[i] != 0,
        r is Err ==> r == Err::<(), ConfigError>(ConfigError::UnspecifiedLocalIp),
{
    let octets: &[u8] = match &ip {
        IpAddress::V4(o) => o.as_slice(),
        IpAddress::V6(o) => o.as_slice(),
    };
    let mut i: usize = 0;
    while i < octets.len()
        invariant
            octets@ == ip.octets(),
            i <= octets@.len(),
            forall|j: int| 0 <= j < i ==> octets@[j] == 0,
        decreases octets@.len() - i,
    {
        if octets[i] != 0 {
            return Ok(());
        }
        i += 1;
    }
    Err(ConfigError::UnspecifiedLocalIp)
}

impl Config {
    /// The serving network name fits a 16-bit KDF length.
    pub open spec fn wf(&self) -> bool {
        self.serving_network_name@.len() < 0x1_0000
    }
}

} // verus!
