//! Core of a combined gNB-CU and minimal 5G core serving UEs behind one
//! gNB-DU over F1: the per-UE signalling state machine and F1AP routing, the
//! security pipeline (Milenage, KDF ladder, 128-NIA2), PDCP and NAS framing,
//! and the user-plane forwarding engine between F1-U and N6.
use vstd::prelude::*;

pub mod config;
pub mod identity;
pub mod nas;
pub mod nas_codec;
pub mod pdcp;
pub mod qcore;
pub mod registry;
pub mod security;
pub mod sims;
pub mod slots;
pub mod stats;
pub mod transport;
pub mod ue_context;
pub mod ue_procedures;
pub mod userplane;

verus! {

} // verus!
