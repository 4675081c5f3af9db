//! The session: at most one tunnel engine, and the pipelines that run every
//! packet through it.
//!
//! Every entry point takes `&mut self`, so a caller that shares a plugin
//! between threads must hold one lock over the whole call; the engine is
//! therefore never entered by two callers at once.

use crate::buffers::{BufferPool, VpnPacketBuffer, VpnPacketBufferList};
use crate::config::{AddressFamily, IpAddress, WireGuardConfig};
use crate::engine::{
    engine_decapsulate, engine_encapsulate, engine_new, keys_accepted, EngineOutcome,
    DATA_OVERHEAD, MAX_PLAINTEXT, MIN_DECAPSULATE_DST,
};
use crate::pipeline::{
    added, batch_disposed, batch_matches, decapsulates, dispose_decapsulated,
    dispose_encapsulated, drain_control_frames, drains, encapsulate_batch, encapsulate_step,
    extends_with, record_first, result_of, too_long, too_small_for,
};
use crate::routes::{
    addresses_of, all_valid, build_route_set, networks_valid, partition_addresses, routes_of,
    RouteSet,
};
use vstd::prelude::*;

verus! {

/// Where a session stands.
#[derive(PartialEq, Eq, Structural, Clone, Copy, Debug)]
pub enum Phase {
    Uninitialized,
    Connected,
    Disconnected,
}

/// Why a call failed.
#[derive(Debug)]
pub enum PluginError {
    /// The configuration could not be used.
    InvalidConfig,
    /// The engine could not be built from the configured keys.
    EngineConstruction(&'static str),
    /// The engine rejected a packet or frame.
    Protocol(boringtun::noise::errors::WireGuardError),
    /// A length does not fit the host's 32-bit field, or a buffer is too
    /// small for what the engine must write into it.
    Bounds,
}

/// MTU of the tunnel interface.
pub const MTU: u32 = 1500;

/// Largest frame the host is asked to deliver from the remote peer.
pub const MAX_FRAME_SIZE: u32 = 1600;

/// Index of the one peer of a session.
pub const PEER_INDEX: u32 = 0;

/// Where a session stands, as the contracts see it.
#[derive(PartialEq, Eq, Structural, Clone, Copy, Debug)]
pub struct SessionState {
    pub phase: Phase,
    pub has_engine: bool,
}

/// The state that a disconnect leaves behind, from any state.
pub open spec fn disconnected(s: SessionState) -> SessionState {
    SessionState { phase: Phase::Disconnected, has_engine: false }
}

/// Disconnecting twice in a row leaves the session as disconnecting once
/// does: disconnected, with no engine.
pub proof fn lemma_disconnect_idempotent(s: SessionState)
    ensures
        disconnected(disconnected(s)) == disconnected(s),
        disconnected(s).phase == Phase::Disconnected,
        !disconnected(s).has_engine,
{
}

/// What the host needs to start the data path of a session.
pub struct ConnectionPlan {
    pub ipv4_addresses: Vec<IpAddress>,
    pub ipv6_addresses: Vec<IpAddress>,
    pub routes: RouteSet,
    pub dns_servers: Vec<IpAddress>,
    pub search_domains: Vec<String>,
    pub remote_port: u16,
    pub mtu: u32,
    pub max_frame_size: u32,
    pub low_cost_network_monitoring: bool,
}

/// Every configured network can be handed to the host.
pub open spec fn config_valid(c: WireGuardConfig) -> bool {
    &&& all_valid(c.interface.address@)
    &&& all_valid(c.peer.allowed_ips@)
    &&& all_valid(c.peer.excluded_ips@)
}

/// `p` is the plan for configuration `c`.
pub open spec fn plans(p: ConnectionPlan, c: WireGuardConfig) -> bool {
    &&& p.ipv4_addresses@ == addresses_of(c.interface.address@, AddressFamily::V4)
    &&& p.ipv6_addresses@ == addresses_of(c.interface.address@, AddressFamily::V6)
    &&& p.routes.ipv4_inclusion@ == routes_of(c.peer.allowed_ips@, AddressFamily::V4)
    &&& p.routes.ipv6_inclusion@ == routes_of(c.peer.allowed_ips@, AddressFamily::V6)
    &&& p.routes.ipv4_exclusion@ == routes_of(c.peer.excluded_ips@, AddressFamily::V4)
    &&& p.routes.ipv6_exclusion@ == routes_of(c.peer.excluded_ips@, AddressFamily::V6)
    &&& p.dns_servers == c.interface.dns_servers
    &&& p.search_domains == c.interface.search_domains
    &&& p.remote_port == c.peer.port
    &&& p.mtu == MTU
    &&& p.max_frame_size == MAX_FRAME_SIZE
    &&& !p.low_cost_network_monitoring
}

/// A session that is ready to be installed: the plan for the host and the
/// engine built for it.
pub struct PendingSession {
    pub plan: ConnectionPlan,
    tunn: Box<boringtun::noise::Tunn>,
    args: Ghost<EngineArgs>,
}

/// What an engine was built from.
pub struct EngineArgs {
    pub private_key: [u8; 32],
    pub public_key: [u8; 32],
    pub preshared_key: Option<[u8; 32]>,
    pub persistent_keepalive: Option<u16>,
    pub index: u32,
}

/// The engine arguments that configuration `c` calls for: its keys, its
/// pre-shared key and keepalive, and peer index 0.
pub open spec fn engine_args_of(c: WireGuardConfig) -> EngineArgs {
    EngineArgs {
        private_key: c.interface.private_key,
        public_key: c.peer.public_key,
        preshared_key: c.peer.preshared_key,
        persistent_keepalive: c.peer.persistent_keepalive,
        index: PEER_INDEX,
    }
}

/// The engine accepts the keys of `c`.
pub open spec fn config_keys_accepted(c: WireGuardConfig) -> bool {
    keys_accepted(c.interface.private_key@, c.peer.public_key@)
}

impl PendingSession {
    /// The plan for the host.
    pub closed spec fn spec_plan(&self) -> ConnectionPlan {
        self.plan
    }

    /// The engine that was built.
    pub closed spec fn engine(&self) -> Box<boringtun::noise::Tunn> {
        self.tunn
    }

    /// What the engine was built from.
    pub closed spec fn engine_args(&self) -> EngineArgs {
        self.args@
    }
}

/// Prepares a session from `config`, without touching any session state.
///
/// Fails with `InvalidConfig` exactly when a configured network cannot be
/// handed to the host, and otherwise with `EngineConstruction` when the
/// engine refuses the keys. On success the plan holds the addresses and
/// routes of `config`, by family and in order, with the fixed data-path
/// settings, and the engine is built for the single peer of index 0.
pub fn prepare_connection(config: WireGuardConfig) -> (r: Result<PendingSession, PluginError>)
    ensures
        (r matches Err(PluginError::InvalidConfig)) <==> !config_valid(config),
        config_valid(config) ==> (r is Ok <==> config_keys_accepted(config)),
        config_valid(config) ==> (r is Ok || r matches Err(PluginError::EngineConstruction(_))),
        r matches Ok(p) ==> plans(p.spec_plan(), config) && p.engine_args() == engine_args_of(config),
{
    let ghost whole = config;
    let WireGuardConfig { interface, peer } = config;
    if !networks_valid(&interface.address) || !networks_valid(&peer.allowed_ips)
        || !networks_valid(&peer.excluded_ips) {
        return Err(PluginError::InvalidConfig);
    }
    let (ipv4_addresses, ipv6_addresses) = partition_addresses(&interface.address);
    let routes = build_route_set(&peer.allowed_ips, &peer.excluded_ips);
    let tunn = match engine_new(
        interface.private_key,
        peer.public_key,
        peer.preshared_key,
        peer.persistent_keepalive,
        PEER_INDEX,
    ) {
        Ok(t) => t,
        Err(e) => {
            return Err(PluginError::EngineConstruction(e));
        },
    };
    let plan = ConnectionPlan {
        ipv4_addresses,
        ipv6_addresses,
        routes,
        dns_servers: interface.dns_servers,
        search_domains: interface.search_domains,
        remote_port: peer.port,
        mtu: MTU,
        max_frame_size: MAX_FRAME_SIZE,
        low_cost_network_monitoring: false,
    };
    Ok(PendingSession { plan, tunn, args: Ghost(engine_args_of(whole)) })
}

/// The plugin object: the session state behind the host's callbacks.
pub struct VpnPlugin {
    tunn: Option<Box<boringtun::noise::Tunn>>,
    phase: Phase,
    args: Ghost<Option<EngineArgs>>,
}

impl VpnPlugin {
    /// A plugin with no session yet.
    pub fn new() -> (r: VpnPlugin)
        ensures
            r.phase() == Phase::Uninitialized,
            !r.has_engine(),
            r.wf(),
    {
        VpnPlugin { tunn: None, phase: Phase::Uninitialized, args: Ghost(None) }
    }

    pub open spec fn phase(&self) -> Phase {
        self.state().phase
    }

    /// Whether an engine is installed.
    pub open spec fn has_engine(&self) -> bool {
        self.state().has_engine
    }

    /// An engine is installed exactly while the session is connected.
    pub closed spec fn wf(&self) -> bool {
        self.tunn is Some <==> self.phase == Phase::Connected
    }

    /// The installed engine, if any.
    pub closed spec fn engine(&self) -> Option<Box<boringtun::noise::Tunn>> {
        self.tunn
    }

    /// What the installed engine was built from.
    pub closed spec fn engine_args(&self) -> Option<EngineArgs> {
        self.args@
    }

    /// Where the session stands.
    pub closed spec fn state(&self) -> SessionState {
        SessionState { phase: self.phase, has_engine: self.tunn is Some }
    }

    /// Installs a prepared session: its engine replaces any earlier one and
    /// the session is connected. Hands back the plan for the host.
    pub fn install(&mut self, pending: PendingSession) -> (r: ConnectionPlan)
        ensures
            r == pending.spec_plan(),
            final(self).engine() == Some(pending.engine()),
            final(self).engine_args() == Some(pending.engine_args()),
            final(self).state() == (SessionState { phase: Phase::Connected, has_engine: true }),
            final(self).wf(),
    {
        let PendingSession { plan, tunn, args } = pending;
        self.tunn = Some(tunn);
        self.args = Ghost(Some(args@));
        self.phase = Phase::Connected;
        plan
    }

    /// Sets up a session from `config` at once: `prepare_connection`, then
    /// `install` on success. On failure the session is left as it was.
    pub fn connect_inner(&mut self, config: WireGuardConfig) -> (r: Result<
        ConnectionPlan,
        PluginError,
    >)
        requires
            old(self).wf(),
        ensures
            final(self).wf(),
            (r matches Err(PluginError::InvalidConfig)) <==> !config_valid(config),
            r is Err ==> *final(self) == *old(self),
            config_valid(config) ==> (r is Ok <==> config_keys_accepted(config)),
            config_valid(config) ==> (r is Ok || r matches Err(PluginError::EngineConstruction(_))),
            r matches Ok(plan) ==> {
                &&& plans(plan, config)
                &&& final(self).engine_args() == Some(engine_args_of(config))
                &&& final(self).state() == (SessionState { phase: Phase::Connected, has_engine: true })
            },
    {
        match prepare_connection(config) {
            Ok(pending) => Ok(self.install(pending)),
            Err(e) => Err(e),
        }
    }

    /// Ends the session: the engine, if any, is dropped. Safe in any state.
    pub fn disconnect_inner(&mut self)
        ensures
            final(self).state() == disconnected(old(self).state()),
            final(self).wf(),
    {
        self.tunn = None;
        self.phase = Phase::Disconnected;
        self.args = Ghost(None);
    }

    /// The keepalive payload the host may send: never one, since the engine
    /// sends its own keepalives through the pipelines.
    pub fn get_keep_alive_payload(&self) -> (r: Option<VpnPacketBuffer>)
        ensures
            r is None,
    {
        None
    }

    /// Where the session stands.
    pub fn get_phase(&self) -> (r: Phase)
        ensures
            r == self.phase(),
    {
        self.phase
    }

    /// Encrypts a batch of outgoing packets.
    ///
    /// With no engine installed nothing changes. Otherwise each packet of
    /// `packets` is taken from the front, a send buffer is requested for it,
    /// and the packet goes back to the end of `packets`, unchanged. The send
    /// buffer is forwarded to `encapsulated` when it holds a frame for the
    /// network, and appended to `packets` after the batch otherwise, so
    /// exactly one buffer is disposed of for each packet. A packet longer
    /// than the tunnel MTU, or a send buffer too small for it, counts as a
    /// bounds error and the engine does not see it. The call fails with the
    /// first error of the batch, after all packets have been processed.
    pub fn encapsulate(
        &mut self,
        pool: &BufferPool,
        packets: &mut VpnPacketBufferList,
        encapsulated: &mut VpnPacketBufferList,
    ) -> (r: Result<(), PluginError>)
        requires
            old(self).wf(),
            old(packets).wf(),
        ensures
            *final(self) == *old(self),
            !old(self).has_engine() ==> {
                &&& final(packets)@ == old(packets)@
                &&& final(encapsulated)@ == old(encapsulated)@
                &&& r is Ok
            },
            old(self).has_engine() && (exists|i: int|
                0 <= i < old(packets)@.len() && #[trigger] too_long(
                    old(packets)@[i],
                    pool.send_capacity,
                )) ==> r matches Err(PluginError::Bounds) || r matches Err(PluginError::Protocol(_)),
            old(self).has_engine() ==> exists|outcomes: Seq<EngineOutcome>, buffers: Seq<VpnPacketBuffer>|
                #[trigger] batch_matches(
                    old(packets)@,
                    final(packets)@,
                    old(encapsulated)@,
                    final(encapsulated)@,
                    r,
                    pool.send_capacity,
                    outcomes,
                    buffers,
                ),
            old(self).has_engine() ==> batch_disposed(
                old(packets)@,
                final(packets)@,
                old(encapsulated)@,
                final(encapsulated)@,
                pool.send_capacity,
            ),
    {
        let tunn: &boringtun::noise::Tunn = match &self.tunn {
            Some(t) => t,
            None => {
                return Ok(());
            },
        };
        let ghost n = packets@.len() as int;
        let ghost m = encapsulated@.len() as int;
        let ghost orig = packets@;
        let count = packets.size();
        let mut returned = VpnPacketBufferList::new();
        let mut first_error: Option<PluginError> = None;
        let ghost outs: Seq<EngineOutcome> = Seq::empty();
        let ghost bufs: Seq<VpnPacketBuffer> = Seq::empty();
        let ghost cap = pool.send_capacity;
        let mut k: usize = 0;
        proof {
            assert(packets@ =~= orig.skip(0) + orig.take(0));
            assert(encapsulated@.take(m) =~= old(encapsulated)@);
        }
        while k < count
            invariant
                count == n,
                orig.len() == n,
                m == old(encapsulated)@.len(),
                k <= count,
                packets@ == orig.skip(k as int) + orig.take(k as int),
                packets.wf(),
                encapsulated@.take(m) == old(encapsulated)@,
                encapsulated@.len() >= m,
                returned@.len() + encapsulated@.len() - m == k,
                forall|i: int|
                    0 <= i < returned@.len() ==> #[trigger] returned@[i].capacity()
                        == pool.send_capacity,
                extends_with(old(encapsulated)@, encapsulated@, pool.send_capacity),
                first_error is None ==> forall|j: int|
                    0 <= j < k ==> !#[trigger] too_long(orig[j], pool.send_capacity),
                outs.len() == k,
                bufs.len() == k,
                cap == pool.send_capacity,
                forall|i: int|
                    0 <= i < bufs.len() ==> (#[trigger] bufs[i]).capacity() == cap && bufs[i].length
                        == 0,
                encapsulated@ == old(encapsulated)@ + encapsulate_batch(
                    orig.take(k as int),
                    outs,
                    bufs,
                    cap,
                ).0,
                returned@ == encapsulate_batch(orig.take(k as int), outs, bufs, cap).1,
                first_error == encapsulate_batch(orig.take(k as int), outs, bufs, cap).2,
                first_error is Some ==> (first_error matches Some(PluginError::Bounds)
                    || first_error matches Some(PluginError::Protocol(_))),
            decreases count - k,
        {
            proof {
                assert(orig.skip(k as int)[0] == packets@[0]);
            }
            let packet = packets.remove_at_begin();
            assert(packet == orig[k as int]);
            let write_buffer = pool.get_send_buffer();
            let src = packet.get_buf();
            assert(packet.wf());
            assert(src@.len() == packet.length);
            assert(write_buffer.data@.len() == pool.send_capacity);
            let ghost before = encapsulate_batch(orig.take(k as int), outs, bufs, cap);
            let ghost this_outcome: EngineOutcome;
            let ghost this_buffer: VpnPacketBuffer;
            if src.len() > MAX_PLAINTEXT || write_buffer.data.len() < src.len() + DATA_OVERHEAD {
                proof {
                    this_outcome = EngineOutcome::Done;
                    this_buffer = write_buffer;
                    assert(this_buffer.capacity() == cap && this_buffer.length == 0);
                }
                returned.append(write_buffer);
                record_first(&mut first_error, PluginError::Bounds);
            } else {
                let mut write_buffer = write_buffer;
                let outcome = engine_encapsulate(tunn, src, &mut write_buffer.data);
                proof {
                    this_outcome = outcome;
                    this_buffer = write_buffer;
                    assert(this_buffer.capacity() == cap && this_buffer.length == 0);
                }
                dispose_encapsulated(
                    outcome,
                    write_buffer,
                    encapsulated,
                    &mut returned,
                    &mut first_error,
                );
            }
            proof {
                let outs2 = outs.push(this_outcome);
                let bufs2 = bufs.push(this_buffer);
                assert(this_buffer.capacity() == cap && this_buffer.length == 0);
                assert(orig.take(k + 1).drop_last() =~= orig.take(k as int));
                assert(outs2.drop_last() =~= outs);
                assert(bufs2.drop_last() =~= bufs);
                assert(orig.take(k + 1).last() == orig[k as int]);
                let after = encapsulate_batch(orig.take(k + 1), outs2, bufs2, cap);
                assert(after == encapsulate_step(before, orig[k as int], this_outcome, this_buffer, cap));
                assert(encapsulated@ =~= old(encapsulated)@ + after.0);
                assert(returned@ =~= after.1);
                assert forall|i: int| 0 <= i < bufs2.len() implies (#[trigger] bufs2[i]).capacity() == cap
                    && bufs2[i].length == 0 by {
                    if i < k {
                        assert(bufs2[i] == bufs[i]);
                        assert(bufs[i].capacity() == cap && bufs[i].length == 0);
                    } else {
                        assert(bufs2[i] == this_buffer);
                    }
                }
                outs = outs2;
                bufs = bufs2;
            }
            packets.append(packet);
            proof {
                assert(packets@ =~= orig.skip(k + 1) + orig.take(k + 1));
                assert(encapsulated@.take(m) =~= old(encapsulated)@);
            }
            k = k + 1;
        }
        let ghost mid = packets@;
        let ghost ret = returned@;
        let ghost enc_mid = encapsulated@;
        let rlen = returned.size();
        let mut j: usize = 0;
        #[verifier::loop_isolation(false)]
        while j < rlen
            invariant
                rlen == ret.len(),
                j <= rlen,
                returned@ == ret.skip(j as int),
                packets@ == mid + ret.take(j as int),
                encapsulated@ == enc_mid,
            decreases rlen - j,
        {
            proof {
                assert(ret.skip(j as int)[0] == ret[j as int]);
            }
            let b = returned.remove_at_begin();
            packets.append(b);
            proof {
                assert(returned@ =~= ret.skip(j + 1));
                assert(packets@ =~= mid + ret.take(j + 1));
            }
            j = j + 1;
        }
        proof {
            assert(ret.take(rlen as int) =~= ret);
            assert(packets@.take(n) =~= orig);
            assert(added(packets@, n) =~= ret);
            assert(encapsulated@.take(m) == old(encapsulated)@);
            assert(packets@.len() >= n);
            assert(added(packets@, n).len() + added(encapsulated@, m).len() == n);
            assert(extends_with(old(encapsulated)@, encapsulated@, pool.send_capacity));
            assert(batch_disposed(orig, packets@, old(encapsulated)@, encapsulated@, pool.send_capacity));
            assert(orig.take(n) =~= orig);
            assert(packets@ =~= orig + encapsulate_batch(orig, outs, bufs, cap).1);
            assert(batch_matches(
                orig,
                packets@,
                old(encapsulated)@,
                encapsulated@,
                result_of(first_error),
                cap,
                outs,
                bufs,
            ));
        }
        match first_error {
            Some(e) => Err(e),
            None => Ok(()),
        }
    }

    /// Decrypts one frame received from the remote peer.
    ///
    /// With no engine installed nothing changes. Otherwise a receive buffer
    /// is requested and the engine decrypts `buffer` into it. A decrypted
    /// packet is appended to `decapsulated`. A handshake reply is appended to
    /// `control`, and then the engine is asked, with empty input and a fresh
    /// send buffer each time, for further frames: each frame it yields is
    /// appended to `control`, and the first result that is not a frame ends
    /// the loop (as does reaching `crate::pipeline::MAX_DRAINED_FRAMES`). A buffer that ends
    /// up unused goes back to the pool. An engine failure, a result too long
    /// for the host's length field, or a buffer too small for what the
    /// engine may write fails the call at once.
    pub fn decapsulate(
        &mut self,
        pool: &mut BufferPool,
        buffer: &VpnPacketBuffer,
        decapsulated: &mut VpnPacketBufferList,
        control: &mut VpnPacketBufferList,
    ) -> (r: Result<(), PluginError>)
        requires
            old(self).wf(),
            buffer.wf(),
        ensures
            *final(self) == *old(self),
            !old(self).has_engine() ==> {
                &&& *final(pool) == *old(pool)
                &&& final(decapsulated)@ == old(decapsulated)@
                &&& final(control)@ == old(control)@
                &&& r is Ok
            },
            old(self).has_engine() && too_small_for(old(pool).receive_capacity, buffer.length) ==> {
                &&& r matches Err(PluginError::Bounds)
                &&& final(pool).released@.len() == old(pool).released@.len() + 1
                &&& final(decapsulated)@ == old(decapsulated)@
                &&& final(control)@ == old(control)@
            },
            final(pool).send_capacity == old(pool).send_capacity,
            final(pool).receive_capacity == old(pool).receive_capacity,
            old(self).has_engine() && !too_small_for(old(pool).receive_capacity, buffer.length)
                ==> exists|
                    first: EngineOutcome,
                    read_buffer: VpnPacketBuffer,
                    steps: Seq<EngineOutcome>,
                    bufs: Seq<VpnPacketBuffer>,
                |
                    #[trigger] decapsulates(
                        old(decapsulated)@,
                        final(decapsulated)@,
                        old(control)@,
                        final(control)@,
                        old(pool).released@,
                        final(pool).released@,
                        r,
                        old(pool).receive_capacity,
                        old(pool).send_capacity,
                        first,
                        read_buffer,
                        steps,
                        bufs,
                    ),
    {
        let tunn: &boringtun::noise::Tunn = match &self.tunn {
            Some(t) => t,
            None => {
                return Ok(());
            },
        };
        let read_buffer = pool.get_receive_buffer();
        let datagram = buffer.get_buf();
        if read_buffer.data.len() < MIN_DECAPSULATE_DST || read_buffer.data.len() < datagram.len() || (
        datagram.len() == 0 && read_buffer.data.len() < MAX_PLAINTEXT + DATA_OVERHEAD) {
            pool.release(read_buffer);
            proof {
                assert(pool.released@.take(old(pool).released@.len() as int) =~= old(pool).released@);
                assert(control@.take(old(control)@.len() as int) =~= old(control)@);
                assert(decapsulated@.take(old(decapsulated)@.len() as int) =~= old(decapsulated)@);
            }
            return Err(PluginError::Bounds);
        }
        let mut read_buffer = read_buffer;
        let outcome = engine_decapsulate(tunn, datagram, &mut read_buffer.data);
        let ghost first = outcome;
        let ghost b0 = read_buffer;
        let ghost d0 = decapsulated@;
        let ghost c0 = control@;
        let ghost rel0 = pool.released@;
        let ghost no_steps = Seq::<EngineOutcome>::empty();
        let ghost no_bufs = Seq::<VpnPacketBuffer>::empty();
        let drain = dispose_decapsulated(outcome, read_buffer, pool, decapsulated, control);
        match drain {
            Ok(true) => {},
            Ok(false) => {
                assert(decapsulates(d0, decapsulated@, c0, control@, rel0, pool.released@, Ok(()),
                    old(pool).receive_capacity, old(pool).send_capacity, first, b0, no_steps, no_bufs));
                return Ok(());
            },
            Err(e) => {
                assert(decapsulates(d0, decapsulated@, c0, control@, rel0, pool.released@, Err(e),
                    old(pool).receive_capacity, old(pool).send_capacity, first, b0, no_steps, no_bufs));
                return Err(e);
            },
        }
        let ghost released_mid = pool.released@;
        let ghost control_mid = control@;
        let r = drain_control_frames(tunn, pool, control);
        proof {
            let (steps, bufs) = choose|steps: Seq<EngineOutcome>, bufs: Seq<VpnPacketBuffer>|
                #[trigger] drains(control_mid, control@, released_mid, pool.released@, r,
                    old(pool).send_capacity, steps, bufs);
            assert(decapsulates(d0, decapsulated@, c0, control@, rel0, pool.released@, r,
                old(pool).receive_capacity, old(pool).send_capacity, first, b0, steps, bufs));
        }
        r
    }
}

} // verus!
