//! The tunnel engine: boringtun's `Tunn`, reached through trusted wrappers.

use boringtun::crypto::{X25519PublicKey, X25519SecretKey};
use boringtun::noise::TunnResult;
use std::sync::Arc;
use vstd::prelude::*;

verus! {

#[verifier::external_type_specification]
#[verifier::external_body]
pub struct ExTunn(boringtun::noise::Tunn);

#[verifier::external_type_specification]
#[verifier::external_body]
pub struct ExWireGuardError(boringtun::noise::errors::WireGuardError);

/// Extra bytes that the engine adds to a data packet when it encrypts it.
pub const DATA_OVERHEAD: usize = 32;

/// Smallest destination the engine may be handed when it decrypts a frame:
/// room for a handshake initiation, the largest handshake message.
pub const MIN_DECAPSULATE_DST: usize = HANDSHAKE_INIT_LEN;

/// Length of a handshake initiation.
pub const HANDSHAKE_INIT_LEN: usize = 148;

/// Largest plaintext packet this adapter hands to the engine; equal to the
/// MTU of the tunnel interface.
pub const MAX_PLAINTEXT: usize = 1500;

/// What one call into the engine produced. The lengths count the bytes that
/// the engine wrote at the start of the destination buffer.
pub enum EngineOutcome {
    /// Nothing to send or deliver.
    Done,
    /// The engine rejected the input.
    Failed(boringtun::noise::errors::WireGuardError),
    /// A frame for the remote peer.
    WriteToNetwork(usize),
    /// A decrypted IPv4 packet for the tunnel interface.
    WriteToTunnelV4(usize),
    /// A decrypted IPv6 packet for the tunnel interface.
    WriteToTunnelV6(usize),
}

impl EngineOutcome {
    /// The number of bytes written, for the outcomes that write.
    pub open spec fn written(self) -> Option<usize> {
        match self {
            EngineOutcome::WriteToNetwork(n) => Some(n),
            EngineOutcome::WriteToTunnelV4(n) => Some(n),
            EngineOutcome::WriteToTunnelV6(n) => Some(n),
            _ => None,
        }
    }

    /// Every outcome that writes stays within a destination of `cap` bytes.
    pub open spec fn fits(self, cap: int) -> bool {
        match self.written() {
            Some(n) => n <= cap,
            None => true,
        }
    }
}

/// Whether the engine accepts a private key and a peer public key, given as
/// raw bytes: their x25519 shared secret must pass the engine's checks.
pub uninterp spec fn keys_accepted(private_key: Seq<u8>, public_key: Seq<u8>) -> bool;

/// Relies on boringtun's `Tunn::new`, with no rate limiter of our own. The
/// private key reaches it through `X25519SecretKey`'s `FromStr` (64 hex
/// digits, read back byte for byte), the public key through
/// `X25519PublicKey::from(&[u8])`. It fails only when the handshake's x25519
/// shared-secret check refuses the two keys, which depends on them alone.
#[verifier::external_body]
pub(crate) fn engine_new(
    private_key: [u8; 32],
    public_key: [u8; 32],
    preshared_key: Option<[u8; 32]>,
    persistent_keepalive: Option<u16>,
    index: u32,
) -> (r: Result<Box<boringtun::noise::Tunn>, &'static str>)
    ensures
        r is Ok <==> keys_accepted(private_key@, public_key@),
{
    let hex: String = private_key.iter().map(|b| format!("{:02x}", b)).collect();
    let secret: X25519SecretKey = hex.parse().expect("64 hex digits always form a key");
    let public = X25519PublicKey::from(&public_key[..]);
    boringtun::noise::Tunn::new(
        Arc::new(secret), Arc::new(public), preshared_key, persistent_keepalive, index, None,
    )
}

/// Relies on boringtun's `Tunn::encapsulate`: it writes an encrypted frame or
/// a handshake initiation at the start of `dst`, or queues the packet while a
/// handshake is under way. It never yields a tunnel packet, and it panics
/// when `dst` has less than `src.len() + 32` bytes, which `requires` rules out.
/// A data frame is 32 bytes longer than its packet; an initiation is 148.
/// Packets within `MAX_PLAINTEXT` bytes are the only ones it ever queues.
#[verifier::external_body]
pub(crate) fn engine_encapsulate(tunn: &boringtun::noise::Tunn, src: &[u8], dst: &mut Vec<u8>) -> (r:
    EngineOutcome)
    requires
        src@.len() <= MAX_PLAINTEXT,
        old(dst)@.len() >= src@.len() + DATA_OVERHEAD,
    ensures
        final(dst)@.len() == old(dst)@.len(),
        r.fits(old(dst)@.len() as int),
        !(r is WriteToTunnelV4),
        !(r is WriteToTunnelV6),
        r matches EngineOutcome::WriteToNetwork(n) ==> n == src@.len() + DATA_OVERHEAD || n
            == HANDSHAKE_INIT_LEN,
{
    match tunn.encapsulate(src, dst.as_mut_slice()) {
        TunnResult::Done => EngineOutcome::Done,
        TunnResult::Err(e) => EngineOutcome::Failed(e),
        TunnResult::WriteToNetwork(p) => EngineOutcome::WriteToNetwork(p.len()),
        TunnResult::WriteToTunnelV4(p, _) => EngineOutcome::WriteToTunnelV4(p.len()),
        TunnResult::WriteToTunnelV6(p, _) => EngineOutcome::WriteToTunnelV6(p.len()),
    }
}

/// Relies on boringtun's `Tunn::decapsulate`, with no source address: for a
/// received frame it writes a handshake reply, a cookie reply or a decrypted
/// packet at the start of `dst`; for an empty `datagram` it encrypts the next
/// queued packet, if any. A data frame needs `dst` as long as the frame, a
/// cookie reply 64 bytes, a queued packet its length plus 32 (queued packets
/// are at most `MAX_PLAINTEXT` bytes, see `engine_encapsulate`); shorter
/// destinations panic, which `requires` rules out.
#[verifier::external_body]
pub(crate) fn engine_decapsulate(tunn: &boringtun::noise::Tunn, datagram: &[u8], dst: &mut Vec<u8>) -> (r:
    EngineOutcome)
    requires
        old(dst)@.len() >= MIN_DECAPSULATE_DST,
        old(dst)@.len() >= datagram@.len(),
        datagram@.len() == 0 ==> old(dst)@.len() >= MAX_PLAINTEXT + DATA_OVERHEAD,
    ensures
        final(dst)@.len() == old(dst)@.len(),
        r.fits(old(dst)@.len() as int),
        datagram@.len() == 0 ==> (r is Done || r is WriteToNetwork),
{
    match tunn.decapsulate(None, datagram, dst.as_mut_slice()) {
        TunnResult::Done => EngineOutcome::Done,
        TunnResult::Err(e) => EngineOutcome::Failed(e),
        TunnResult::WriteToNetwork(p) => EngineOutcome::WriteToNetwork(p.len()),
        TunnResult::WriteToTunnelV4(p, _) => EngineOutcome::WriteToTunnelV4(p.len()),
        TunnResult::WriteToTunnelV6(p, _) => EngineOutcome::WriteToTunnelV6(p.len()),
    }
}

} // verus!
