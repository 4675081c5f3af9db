//! The events a session reports to whoever watches it.

use vstd::prelude::*;

verus! {

/// Receives the events of a session, for tracing.
pub trait WireGuardUWPEvents {
    /// The session is connected to `remote_host` on `remote_port`.
    fn connected(&mut self, remote_host: &str, remote_port: u16);

    /// Connecting failed with `code`, for the reason `msg`.
    fn connect_fail(&mut self, code: u32, msg: &str);

    /// The session was torn down, with `code` 0 on success.
    fn disconnect(&mut self, code: u32, msg: &str);

    /// A batch of `packets` outgoing packets is about to be encrypted.
    fn encapsulate_begin(&mut self, packets: u32);

    /// A batch ended with `frames` frames for the remote peer.
    fn encapsulate_end(&mut self, frames: u32);

    /// A frame of `frame_sz` bytes is about to be decrypted.
    fn decapsulate_begin(&mut self, frame_sz: u32);

    /// A frame gave `packets` packets and `control_frames` replies.
    fn decapsulate_end(&mut self, packets: u32, control_frames: u32);

    /// A keepalive of `packet_sz` bytes is on its way.
    fn keepalive(&mut self, packet_sz: u32);
}

} // verus!
