//! NAS 5GS security framing and the parts of NAS messages that the core reads
//! itself: the SUPI in a 5GS mobile identity.
use vstd::prelude::*;

use crate::security::{be32, calculate_nia2_mac, nia2_spec};

verus! {

/// Extended protocol discriminator of 5GS mobility management.
pub const EPD_5GMM: u8 = 0x7e;

/// Security header type: integrity protected with new 5G NAS security context.
pub const SHT_INTEGRITY_NEW_CONTEXT: u8 = 3;

/// Security header type: integrity protected and ciphered.
pub const SHT_INTEGRITY_AND_CIPHERED: u8 = 2;

/// Length of the security-protected outer header.
pub const SECURED_HEADER_LEN: usize = 7;

/// NAS COUNT wraps at 2^24.
pub const NAS_COUNT_MODULUS: u32 = 0x100_0000;

/// Why NAS bytes could not be handled.
#[derive(Clone, Copy, Debug, PartialEq, Eq, Structural)]
pub enum NasError {
    /// A security-protected message shorter than its outer header.
    TooShort,
    /// A mobile identity IE shorter than a SUPI needs.
    MobileIdentityTooShort,
    /// A mobile identity other than a SUPI.
    NotSupi,
}

/// The downlink half of a UE's 5G NAS security context.
#[derive(Clone, Debug)]
pub struct SecurityContext {
    pub ik: [u8; 16],
    pub dl_count: u32,
}

/// The security header type of the message sent with this DL NAS COUNT.
pub open spec fn security_header_type(dl_count: u32) -> u8 {
    if dl_count == 0 {
        SHT_INTEGRITY_NEW_CONTEXT
    } else {
        SHT_INTEGRITY_AND_CIPHERED
    }
}

/// The protected message sent with this key and DL NAS COUNT: protocol
/// discriminator, security header type, MAC, sequence number, then the plain
/// message; the MAC is NIA2 (bearer 1, downlink) over sequence number and
/// plain message.
pub open spec fn protected_nas(ik: Seq<u8>, dl_count: u32, plain: Seq<u8>) -> Seq<u8> {
    let tail = seq![(dl_count % 256) as u8] + plain;
    seq![EPD_5GMM, security_header_type(dl_count)] + nia2_spec(ik, be32(dl_count), 1, 1, tail) + tail
}

/// The DL NAS COUNT after one more protected message.
pub open spec fn next_dl_count(dl_count: u32) -> u32 {
    ((dl_count + 1) % 0x100_0000) as u32
}

impl SecurityContext {
    /// The DL NAS COUNT stays below 2^24.
    pub open spec fn wf(&self) -> bool {
        self.dl_count < 0x100_0000
    }

    /// A fresh context for KNASint `ik`, with DL NAS COUNT zero.
    pub fn new(ik: [u8; 16]) -> (r: SecurityContext)
        ensures
            r.ik == ik,
            r.dl_count == 0,
            r.wf(),
    {
        SecurityContext { ik, dl_count: 0 }
    }

    /// Wrap the plain NAS message `plain` in an integrity-protected outer
    /// header and advance the DL NAS COUNT.
    pub fn encode_with_integrity(&mut self, plain: &[u8]) -> (r: Vec<u8>)
        requires
            old(self).wf(),
            plain@.len() + SECURED_HEADER_LEN <= usize::MAX,
        ensures
            r@ == protected_nas(old(self).ik@, old(self).dl_count, plain@),
            final(self).ik == old(self).ik,
            final(self).dl_count == next_dl_count(old(self).dl_count),
            final(self).wf(),
    {
        let security_header_type: u8 = if self.dl_count == 0 {
            SHT_INTEGRITY_NEW_CONTEXT
        } else {
            SHT_INTEGRITY_AND_CIPHERED
        };
        let mut tail: Vec<u8> = Vec::new();
        tail.push((self.dl_count % 256) as u8);
        tail.extend_from_slice(plain);
        assert(tail@ =~= seq![(self.dl_count % 256) as u8] + plain@);

        let count = self.dl_count;
        let count_bytes: [u8; 4] = [
            (count / 0x100_0000) as u8,
            ((count / 0x1_0000) % 256) as u8,
            ((count / 256) % 256) as u8,
            (count % 256) as u8,
        ];
        assert(count_bytes@ =~= be32(count));

        // The BEARER input is the NAS connection identifier; DIRECTION is 1 for downlink.
        let mac = calculate_nia2_mac(&self.ik, count_bytes, 1, 1, tail.as_slice());

        let mut nas_bytes: Vec<u8> = Vec::new();
        nas_bytes.push(EPD_5GMM);
        nas_bytes.push(security_header_type);
        nas_bytes.extend_from_slice(&mac);
        nas_bytes.append(&mut tail);
        assert(nas_bytes@ =~= protected_nas(self.ik@, count, plain@));

        self.dl_count = (self.dl_count + 1) % NAS_COUNT_MODULUS;
        nas_bytes
    }
}

/// Successive protected messages of a UE carry DL NAS COUNTs that differ by
/// exactly one modulo 2^24, and sequence numbers that differ by one modulo 256.
pub proof fn lemma_successive_dl_counts(ctx: SecurityContext, first: Seq<u8>, second: Seq<u8>)
    requires
        ctx.wf(),
    ensures
        next_dl_count(ctx.dl_count) == (ctx.dl_count + 1) % 0x100_0000,
        next_dl_count(ctx.dl_count) < 0x100_0000,
        protected_nas(ctx.ik@, next_dl_count(ctx.dl_count), second)[6] as int
            == (protected_nas(ctx.ik@, ctx.dl_count, first)[6] as int + 1) % 256,
{
    let c = ctx.dl_count as int;
    let n = next_dl_count(ctx.dl_count) as int;
    assert(nia2_spec(ctx.ik@, be32(ctx.dl_count), 1, 1, seq![(ctx.dl_count % 256) as u8] + first).len() == 4);
    assert(nia2_spec(ctx.ik@, be32(next_dl_count(ctx.dl_count)), 1, 1, seq![(next_dl_count(ctx.dl_count) % 256) as u8] + second).len() == 4);
    assert(n % 256 == (c % 256 + 1) % 256) by (nonlinear_arith)
        requires n == (c + 1) % 0x100_0000, 0 <= c < 0x100_0000;
}

/// The NAS state of a UE: plain until security is activated.
#[derive(Debug)]
pub struct NasContext {
    pub security_context: Option<SecurityContext>,
}

/// The plain message that NAS bytes carry: after the 7-byte outer header of a
/// security-protected 5GMM message, else the bytes themselves.
pub open spec fn nas_plain(data: Seq<u8>) -> Option<Seq<u8>> {
    if data.len() >= 2 && data[0] == EPD_5GMM && data[1] % 16 != 0 {
        if data.len() < 7 {
            None
        } else {
            Some(data.subrange(7, data.len() as int))
        }
    } else {
        Some(data)
    }
}

impl NasContext {
    pub open spec fn wf(&self) -> bool {
        self.security_context is Some ==> self.security_context->Some_0.wf()
    }

    /// A context with no security.
    pub fn new() -> (r: NasContext)
        ensures
            r.security_context is None,
            r.wf(),
    {
        NasContext { security_context: None }
    }

    /// The plain NAS message carried by `data`. The MAC of a protected
    /// message is not checked.
    pub fn decode<'a>(&self, data: &'a [u8]) -> (r: Result<&'a [u8], NasError>)
        ensures
            match r {
                Ok(p) => nas_plain(data@) == Some(p@),
                Err(e) => nas_plain(data@) is None && e == NasError::TooShort,
            },
    {
        if data.len() >= 2 && data[0] == EPD_5GMM && data[1] % 16 != 0 {
            if data.len() < SECURED_HEADER_LEN {
                Err(NasError::TooShort)
            } else {
                Ok(&data[SECURED_HEADER_LEN..data.len()])
            }
        } else {
            Ok(data)
        }
    }

    /// Protect later downlink messages with KNASint.
    pub fn enable_security(&mut self, knasint: [u8; 16])
        ensures
            final(self).security_context == Some(SecurityContext { ik: knasint, dl_count: 0 }),
            final(self).wf(),
    {
        self.security_context = Some(SecurityContext::new(knasint));
    }

    /// The bytes to send for the plain NAS message `plain`: protected once
    /// security is on, as they are before.
    pub fn encode(&mut self, plain: Vec<u8>) -> (r: Vec<u8>)
        requires
            old(self).wf(),
            plain@.len() + SECURED_HEADER_LEN <= usize::MAX,
        ensures
            final(self).wf(),
            match old(self).security_context {
                Some(ctx) => r@ == protected_nas(ctx.ik@, ctx.dl_count, plain@)
                    && final(self).security_context == Some(SecurityContext { ik: ctx.ik, dl_count: next_dl_count(ctx.dl_count) }),
                None => r@ == plain@ && final(self).security_context is None,
            },
    {
        match &mut self.security_context {
            Some(ctx) => ctx.encode_with_integrity(plain.as_slice()),
            None => plain,
        }
    }
}

/// Byte of a security-protected 5GMM message that holds the inner message's
/// security header type.
pub const INNER_SECURITY_HEADER_TYPE_OFFSET: usize = 8;

/// The bytes after clearing the inner security header type of a protected
/// 5GMM message (some UE stacks set it on a Deregistration Request).
pub open spec fn patched_nas(b: Seq<u8>) -> Seq<u8> {
    if b.len() >= 9 && b[0] == EPD_5GMM && b[1] == 0x02 {
        b.update(8, 0)
    } else {
        b
    }
}

/// Clear the inner security header type of a protected 5GMM message so that
/// the NAS decoder accepts it; other messages stay as they are.
pub fn patch_nas_for_oai_deregistration_security_header(nas_bytes: &mut Vec<u8>)
    ensures
        final(nas_bytes)@ == patched_nas(old(nas_bytes)@),
{
    if nas_bytes.len() < INNER_SECURITY_HEADER_TYPE_OFFSET + 1 {
        return;
    }
    if nas_bytes[0] == EPD_5GMM && nas_bytes[1] == 0x02 {
        if nas_bytes[INNER_SECURITY_HEADER_TYPE_OFFSET] != 0x00 {
            nas_bytes.set(INNER_SECURITY_HEADER_TYPE_OFFSET, 0x00);
        }
        assert(nas_bytes@ =~= patched_nas(old(nas_bytes)@));
    }
}

} // verus!
