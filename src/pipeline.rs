//! The steps of the two pipelines: what becomes of each buffer once the
//! engine has answered, and the loop that drains pending control frames.

use crate::buffers::{BufferPool, VpnPacketBuffer, VpnPacketBufferList};
use crate::engine::{engine_decapsulate, EngineOutcome, DATA_OVERHEAD, MAX_PLAINTEXT, MIN_DECAPSULATE_DST};
use crate::plugin::PluginError;
use vstd::prelude::*;

verus! {

/// Whether a length fits the host's 32-bit length field.
pub open spec fn fits_u32(n: usize) -> bool {
    n <= u32::MAX
}

/// `first` with `e` recorded, unless an error is already there.
pub open spec fn keep_first(first: Option<PluginError>, e: PluginError) -> Option<PluginError> {
    match first {
        Some(f) => Some(f),
        None => Some(e),
    }
}

/// `b` with its first `n` bytes marked as data.
pub open spec fn with_length(b: VpnPacketBuffer, n: usize) -> VpnPacketBuffer {
    VpnPacketBuffer { data: b.data, length: n as u32 }
}

pub(crate) fn record_first(first: &mut Option<PluginError>, e: PluginError)
    ensures
        *final(first) == keep_first(*old(first), e),
{
    if first.is_none() {
        *first = Some(e);
    }
}

/// Settles one outgoing packet once the engine has answered: a frame for the
/// network is forwarded with its length set; otherwise the write buffer goes
/// to `returned` and an engine failure or an oversized frame is recorded,
/// the first one only.
pub fn dispose_encapsulated(
    outcome: EngineOutcome,
    write_buffer: VpnPacketBuffer,
    encapsulated: &mut VpnPacketBufferList,
    returned: &mut VpnPacketBufferList,
    first_error: &mut Option<PluginError>,
)
    requires
        outcome.fits(write_buffer.capacity() as int),
        !(outcome is WriteToTunnelV4),
        !(outcome is WriteToTunnelV6),
    ensures
        match outcome {
            EngineOutcome::WriteToNetwork(n) => if fits_u32(n) {
                &&& final(encapsulated)@ == old(encapsulated)@.push(with_length(write_buffer, n))
                &&& final(returned)@ == old(returned)@
                &&& *final(first_error) == *old(first_error)
            } else {
                &&& final(encapsulated)@ == old(encapsulated)@
                &&& final(returned)@ == old(returned)@.push(write_buffer)
                &&& *final(first_error) == keep_first(*old(first_error), PluginError::Bounds)
            },
            EngineOutcome::Failed(e) => {
                &&& final(encapsulated)@ == old(encapsulated)@
                &&& final(returned)@ == old(returned)@.push(write_buffer)
                &&& *final(first_error) == keep_first(*old(first_error), PluginError::Protocol(e))
            },
            _ => {
                &&& final(encapsulated)@ == old(encapsulated)@
                &&& final(returned)@ == old(returned)@.push(write_buffer)
                &&& *final(first_error) == *old(first_error)
            },
        },
{
    match outcome {
        EngineOutcome::WriteToNetwork(n) => {
            if n <= u32::MAX as usize {
                let mut b = write_buffer;
                b.set_length(n as u32);
                encapsulated.append(b);
            } else {
                returned.append(write_buffer);
                record_first(first_error, PluginError::Bounds);
            }
        },
        EngineOutcome::Failed(e) => {
            returned.append(write_buffer);
            record_first(first_error, PluginError::Protocol(e));
        },
        _ => {
            returned.append(write_buffer);
        },
    }
}


/// Most frames the draining loop of one `decapsulate` call collects; the
/// engine queues at most 256 packets, so a correct engine stops well before.
pub const MAX_DRAINED_FRAMES: usize = 512;

/// Settles the buffer of the first engine call of `decapsulate`: a frame for
/// the network goes to `control` and asks for draining (`Ok(true)`), a
/// decrypted packet goes to `decapsulated`; an unused buffer goes back to the
/// pool, and an engine failure or an oversized result fails the call.
pub fn dispose_decapsulated(
    outcome: EngineOutcome,
    read_buffer: VpnPacketBuffer,
    pool: &mut BufferPool,
    decapsulated: &mut VpnPacketBufferList,
    control: &mut VpnPacketBufferList,
) -> (r: Result<bool, PluginError>)
    requires
        outcome.fits(read_buffer.capacity() as int),
    ensures
        final(pool).send_capacity == old(pool).send_capacity,
        final(pool).receive_capacity == old(pool).receive_capacity,
        match outcome {
            EngineOutcome::Done => {
                &&& final(pool).released@ == old(pool).released@.push(read_buffer)
                &&& final(decapsulated)@ == old(decapsulated)@
                &&& final(control)@ == old(control)@
                &&& r == Ok::<bool, PluginError>(false)
            },
            EngineOutcome::Failed(e) => {
                &&& final(pool).released@ == old(pool).released@.push(read_buffer)
                &&& final(decapsulated)@ == old(decapsulated)@
                &&& final(control)@ == old(control)@
                &&& r == Err::<bool, PluginError>(PluginError::Protocol(e))
            },
            EngineOutcome::WriteToNetwork(n) => if fits_u32(n) {
                &&& final(pool).released@ == old(pool).released@
                &&& final(decapsulated)@ == old(decapsulated)@
                &&& final(control)@ == old(control)@.push(with_length(read_buffer, n))
                &&& r == Ok::<bool, PluginError>(true)
            } else {
                &&& final(pool).released@ == old(pool).released@.push(read_buffer)
                &&& final(decapsulated)@ == old(decapsulated)@
                &&& final(control)@ == old(control)@
                &&& r == Err::<bool, PluginError>(PluginError::Bounds)
            },
            EngineOutcome::WriteToTunnelV4(n) | EngineOutcome::WriteToTunnelV6(n) => if fits_u32(n) {
                &&& final(pool).released@ == old(pool).released@
                &&& final(decapsulated)@ == old(decapsulated)@.push(with_length(read_buffer, n))
                &&& final(control)@ == old(control)@
                &&& r == Ok::<bool, PluginError>(false)
            } else {
                &&& final(pool).released@ == old(pool).released@.push(read_buffer)
                &&& final(decapsulated)@ == old(decapsulated)@
                &&& final(control)@ == old(control)@
                &&& r == Err::<bool, PluginError>(PluginError::Bounds)
            },
        },
{
    match outcome {
        EngineOutcome::Done => {
            pool.release(read_buffer);
            Ok(false)
        },
        EngineOutcome::Failed(e) => {
            pool.release(read_buffer);
            Err(PluginError::Protocol(e))
        },
        EngineOutcome::WriteToNetwork(n) => {
            if n <= u32::MAX as usize {
                let mut b = read_buffer;
                b.set_length(n as u32);
                control.append(b);
                Ok(true)
            } else {
                pool.release(read_buffer);
                Err(PluginError::Bounds)
            }
        },
        EngineOutcome::WriteToTunnelV4(n) | EngineOutcome::WriteToTunnelV6(n) => {
            if n <= u32::MAX as usize {
                let mut b = read_buffer;
                b.set_length(n as u32);
                decapsulated.append(b);
                Ok(false)
            } else {
                pool.release(read_buffer);
                Err(PluginError::Bounds)
            }
        },
    }
}

/// Settles the buffer of one draining call: a frame for the network goes to
/// `control` and draining goes on (`Ok(true)`); any other result ends the
/// draining and the unused buffer goes back to the pool (`Ok(false)`). An
/// oversized frame goes back to the pool and fails the call.
pub fn dispose_drained(
    outcome: EngineOutcome,
    send_buffer: VpnPacketBuffer,
    pool: &mut BufferPool,
    control: &mut VpnPacketBufferList,
) -> (r: Result<bool, PluginError>)
    requires
        outcome.fits(send_buffer.capacity() as int),
    ensures
        final(pool).send_capacity == old(pool).send_capacity,
        final(pool).receive_capacity == old(pool).receive_capacity,
        match outcome {
            EngineOutcome::WriteToNetwork(n) => if fits_u32(n) {
                &&& final(pool).released@ == old(pool).released@
                &&& final(control)@ == old(control)@.push(with_length(send_buffer, n))
                &&& r == Ok::<bool, PluginError>(true)
            } else {
                &&& final(pool).released@ == old(pool).released@.push(send_buffer)
                &&& final(control)@ == old(control)@
                &&& r == Err::<bool, PluginError>(PluginError::Bounds)
            },
            _ => {
                &&& final(pool).released@ == old(pool).released@.push(send_buffer)
                &&& final(control)@ == old(control)@
                &&& r == Ok::<bool, PluginError>(false)
            },
        },
{
    match outcome {
        EngineOutcome::WriteToNetwork(n) => {
            if n <= u32::MAX as usize {
                let mut b = send_buffer;
                b.set_length(n as u32);
                control.append(b);
                Ok(true)
            } else {
                pool.release(send_buffer);
                Err(PluginError::Bounds)
            }
        },
        _ => {
            pool.release(send_buffer);
            Ok(false)
        },
    }
}

/// `after` is `before` with well-formed buffers of capacity `cap` added.
pub open spec fn extends_with(
    before: Seq<VpnPacketBuffer>,
    after: Seq<VpnPacketBuffer>,
    cap: usize,
) -> bool {
    &&& after.len() >= before.len()
    &&& after.take(before.len() as int) == before
    &&& forall|i: int|
        before.len() <= i < after.len() ==> {
            &&& #[trigger] after[i].wf()
            &&& after[i].capacity() == cap
        }
}

/// A draining result that adds a frame to the control list.
pub open spec fn is_frame(o: EngineOutcome) -> bool {
    match o {
        EngineOutcome::WriteToNetwork(n) => fits_u32(n),
        _ => false,
    }
}

/// How many frames draining collects from the results `steps`: those
/// before the first result that is not a frame.
pub open spec fn leading_frames(steps: Seq<EngineOutcome>) -> nat
    decreases steps.len(),
{
    if steps.len() == 0 {
        0
    } else if is_frame(steps[0]) {
        1 + leading_frames(steps.drop_first())
    } else {
        0
    }
}

/// When the engine yields `k` frames and then something else, draining
/// collects exactly `k` frames, whatever the engine would yield afterwards.
pub proof fn lemma_draining_collects_k_frames(steps: Seq<EngineOutcome>, k: int)
    requires
        0 <= k < steps.len(),
        forall|i: int| 0 <= i < k ==> is_frame(#[trigger] steps[i]),
        !is_frame(steps[k]),
    ensures
        leading_frames(steps) == k,
    decreases k,
{
    if k > 0 {
        assert forall|i: int| 0 <= i < k - 1 implies is_frame(#[trigger] steps.drop_first()[i]) by {
            assert(steps.drop_first()[i] == steps[i + 1]);
        }
        lemma_draining_collects_k_frames(steps.drop_first(), k - 1);
    }
}

/// When every result is a frame, draining collects all of them.
pub proof fn lemma_draining_collects_all_frames(steps: Seq<EngineOutcome>)
    requires
        forall|i: int| 0 <= i < steps.len() ==> is_frame(#[trigger] steps[i]),
    ensures
        leading_frames(steps) == steps.len(),
    decreases steps.len(),
{
    if steps.len() > 0 {
        assert forall|i: int| 0 <= i < steps.len() - 1 implies is_frame(
            #[trigger] steps.drop_first()[i],
        ) by {
            assert(steps.drop_first()[i] == steps[i + 1]);
        }
        lemma_draining_collects_all_frames(steps.drop_first());
    }
}

/// Asks the engine for pending frames, with empty input and a fresh send
/// buffer each time, until it yields something that is not a frame or
/// `MAX_DRAINED_FRAMES` frames have come; see `drains`.
pub(crate) fn drain_control_frames(
    tunn: &boringtun::noise::Tunn,
    pool: &mut BufferPool,
    control: &mut VpnPacketBufferList,
) -> (r: Result<(), PluginError>)
    ensures
        final(pool).send_capacity == old(pool).send_capacity,
        final(pool).receive_capacity == old(pool).receive_capacity,
        exists|steps: Seq<EngineOutcome>, bufs: Seq<VpnPacketBuffer>|
            #[trigger] drains(
                old(control)@,
                final(control)@,
                old(pool).released@,
                final(pool).released@,
                r,
                old(pool).send_capacity,
                steps,
                bufs,
            ),
{
    let empty: Vec<u8> = Vec::new();
    let ghost steps: Seq<EngineOutcome> = Seq::empty();
    let ghost bufs: Seq<VpnPacketBuffer> = Seq::empty();
    let ghost c0 = control@;
    let ghost cap = pool.send_capacity;
    let mut i: usize = 0;
    proof {
        assert(control@.take(control@.len() as int) =~= control@);
    }
    while i < MAX_DRAINED_FRAMES
        invariant
            i <= MAX_DRAINED_FRAMES,
            empty@.len() == 0,
            c0 == old(control)@,
            cap == old(pool).send_capacity,
            steps.len() == i,
            bufs.len() == i,
            forall|j: int| 0 <= j < steps.len() ==> is_frame(#[trigger] steps[j]),
            forall|j: int| 0 <= j < bufs.len() ==> (#[trigger] bufs[j]).capacity() == cap,
            pool.send_capacity == old(pool).send_capacity,
            pool.receive_capacity == old(pool).receive_capacity,
            pool.released@ == old(pool).released@,
            control@.len() == c0.len() + i,
            control@.take(c0.len() as int) == c0,
            forall|j: int|
                0 <= j < i ==> control@[c0.len() + j] == with_length(
                    #[trigger] bufs[j],
                    steps[j]->WriteToNetwork_0,
                ),
        decreases MAX_DRAINED_FRAMES - i,
    {
        let send_buffer = pool.get_send_buffer();
        if send_buffer.data.len() < MAX_PLAINTEXT + DATA_OVERHEAD {
            let ghost s = steps.push(EngineOutcome::Done);
            let ghost bs = bufs.push(send_buffer);
            pool.release(send_buffer);
            proof {
                assert(forall|j: int| 0 <= j < i ==> #[trigger] s[j] == steps[j]);
                assert(forall|j: int| 0 <= j < i ==> #[trigger] bs[j] == bufs[j]);
                assert(!is_frame(s[i as int]));
                lemma_draining_collects_k_frames(s, i as int);
                assert(drains(c0, control@, old(pool).released@, pool.released@,
                    Err(PluginError::Bounds), cap, s, bs));
            }
            return Err(PluginError::Bounds);
        }
        let mut send_buffer = send_buffer;
        let outcome = engine_decapsulate(tunn, empty.as_slice(), &mut send_buffer.data);
        let ghost this = outcome;
        let ghost this_buffer = send_buffer;
        let ghost s = steps.push(this);
        let ghost bs = bufs.push(this_buffer);
        let ghost control_before = control@;
        let more = dispose_drained(outcome, send_buffer, pool, control);
        proof {
            assert(forall|j: int| 0 <= j < i ==> #[trigger] s[j] == steps[j]);
            assert(forall|j: int| 0 <= j < i ==> #[trigger] bs[j] == bufs[j]);
            assert(s[i as int] == this);
            assert(bs[i as int] == this_buffer);
        }
        match more {
            Ok(true) => {},
            Ok(false) => {
                proof {
                    lemma_draining_collects_k_frames(s, i as int);
                    assert(drains(c0, control@, old(pool).released@, pool.released@, Ok(()), cap, s, bs));
                }
                return Ok(());
            },
            Err(e) => {
                proof {
                    lemma_draining_collects_k_frames(s, i as int);
                    assert(drains(c0, control@, old(pool).released@, pool.released@,
                        Err(PluginError::Bounds), cap, s, bs));
                }
                return Err(e);
            },
        }
        proof {
            assert(control@ =~= control_before.push(with_length(this_buffer, this->WriteToNetwork_0)));
            assert(control@.take(c0.len() as int) =~= c0);
            assert forall|j: int| 0 <= j < i + 1 implies control@[c0.len() + j] == with_length(
                #[trigger] bs[j],
                s[j]->WriteToNetwork_0,
            ) by {
                if j < i {
                    assert(control@[c0.len() + j] == control_before[c0.len() + j]);
                }
            }
            steps = s;
            bufs = bs;
        }
        i = i + 1;
    }
    proof {
        lemma_draining_collects_all_frames(steps);
        assert(drains(c0, control@, old(pool).released@, pool.released@, Ok(()), cap, steps, bufs));
    }
    Ok(())
}

/// A packet that the engine is not handed: longer than the tunnel MTU, or
/// too long for a send buffer of `cap` bytes once encrypted.
pub open spec fn too_long(b: VpnPacketBuffer, cap: usize) -> bool {
    b.length > MAX_PLAINTEXT || cap < b.length + DATA_OVERHEAD
}

/// A receive buffer of `cap` bytes that cannot take what the engine may
/// write for a frame of `len` bytes.
pub open spec fn too_small_for(cap: usize, len: u32) -> bool {
    cap < MIN_DECAPSULATE_DST || cap < len || (len == 0 && cap < MAX_PLAINTEXT + DATA_OVERHEAD)
}

/// The buffers that `s` adds after its first `n`.
pub open spec fn added(s: Seq<VpnPacketBuffer>, n: int) -> Seq<VpnPacketBuffer> {
    s.skip(n)
}

/// The effect of one batch on the two lists: the input packets are all back,
/// in order and unchanged, and each of them accounts for exactly one send
/// buffer of capacity `cap`, appended either after them or, well formed, to
/// the output list.
pub open spec fn batch_disposed(
    packets_before: Seq<VpnPacketBuffer>,
    packets_after: Seq<VpnPacketBuffer>,
    out_before: Seq<VpnPacketBuffer>,
    out_after: Seq<VpnPacketBuffer>,
    cap: usize,
) -> bool {
    let n = packets_before.len() as int;
    let m = out_before.len() as int;
    &&& packets_after.len() >= n
    &&& packets_after.take(n) == packets_before
    &&& added(packets_after, n).len() + added(out_after, m).len() == n
    &&& forall|i: int|
        0 <= i < added(packets_after, n).len() ==> #[trigger] added(packets_after, n)[i].capacity()
            == cap
    &&& extends_with(out_before, out_after, cap)
}

/// What a batch has produced so far: the buffers forwarded, the buffers to
/// return, and the first error.
pub type BatchEffect = (Seq<VpnPacketBuffer>, Seq<VpnPacketBuffer>, Option<PluginError>);

/// One packet of a batch, with `buffer` its send buffer once the engine has
/// written into it: a packet that is too long is refused without the engine,
/// otherwise the engine's `outcome` is settled as `dispose_encapsulated`
/// does.
pub open spec fn encapsulate_step(
    acc: BatchEffect,
    packet: VpnPacketBuffer,
    outcome: EngineOutcome,
    buffer: VpnPacketBuffer,
    cap: usize,
) -> BatchEffect {
    if too_long(packet, cap) {
        (acc.0, acc.1.push(buffer), keep_first(acc.2, PluginError::Bounds))
    } else {
        match outcome {
            EngineOutcome::WriteToNetwork(n) => if fits_u32(n) {
                (acc.0.push(with_length(buffer, n)), acc.1, acc.2)
            } else {
                (acc.0, acc.1.push(buffer), keep_first(acc.2, PluginError::Bounds))
            },
            EngineOutcome::Failed(e) => (
                acc.0,
                acc.1.push(buffer),
                keep_first(acc.2, PluginError::Protocol(e)),
            ),
            _ => (acc.0, acc.1.push(buffer), acc.2),
        }
    }
}

/// A whole batch: `packets` in order, the i-th answered by `outcomes[i]`
/// in `buffers[i]`.
pub open spec fn encapsulate_batch(
    packets: Seq<VpnPacketBuffer>,
    outcomes: Seq<EngineOutcome>,
    buffers: Seq<VpnPacketBuffer>,
    cap: usize,
) -> BatchEffect
    decreases packets.len(),
{
    if packets.len() == 0 {
        (Seq::empty(), Seq::empty(), None)
    } else {
        encapsulate_step(
            encapsulate_batch(packets.drop_last(), outcomes.drop_last(), buffers.drop_last(), cap),
            packets.last(),
            outcomes.last(),
            buffers.last(),
            cap,
        )
    }
}

/// The result of a call whose first error, if any, is `first`.
pub open spec fn result_of(first: Option<PluginError>) -> Result<(), PluginError> {
    match first {
        Some(e) => Err(e),
        None => Ok(()),
    }
}

/// A batch call went as the engine's `outcomes` dictate: one outcome and
/// one send buffer of capacity `cap` per packet, the frames forwarded in
/// order, the other buffers appended after the packets in order, and the
/// result carrying the first error.
pub open spec fn batch_matches(
    packets_before: Seq<VpnPacketBuffer>,
    packets_after: Seq<VpnPacketBuffer>,
    out_before: Seq<VpnPacketBuffer>,
    out_after: Seq<VpnPacketBuffer>,
    r: Result<(), PluginError>,
    cap: usize,
    outcomes: Seq<EngineOutcome>,
    buffers: Seq<VpnPacketBuffer>,
) -> bool {
    let effect = encapsulate_batch(packets_before, outcomes, buffers, cap);
    &&& outcomes.len() == packets_before.len()
    &&& buffers.len() == packets_before.len()
    &&& forall|i: int|
        0 <= i < buffers.len() ==> (#[trigger] buffers[i]).capacity() == cap && buffers[i].length
            == 0
    &&& out_after == out_before + effect.0
    &&& packets_after == packets_before + effect.1
    &&& r == result_of(effect.2)
}

/// The effect of draining, step by step: `steps[i]` is the answer the
/// engine gave in send buffer `bufs[i]` (capacity `cap`), or `Done` for a
/// buffer too small to be handed over. The first `leading_frames(steps)`
/// answers are frames and were appended to the control list, in order and
/// with their lengths; a buffer that ends the draining goes back to the
/// pool. Draining ends at the first answer that is not a frame, at a failure
/// (always a bounds error), or after `MAX_DRAINED_FRAMES` frames.
pub open spec fn drains(
    control_before: Seq<VpnPacketBuffer>,
    control_after: Seq<VpnPacketBuffer>,
    released_before: Seq<VpnPacketBuffer>,
    released_after: Seq<VpnPacketBuffer>,
    r: Result<(), PluginError>,
    cap: usize,
    steps: Seq<EngineOutcome>,
    bufs: Seq<VpnPacketBuffer>,
) -> bool {
    let k = leading_frames(steps);
    &&& steps.len() == bufs.len()
    &&& steps.len() <= MAX_DRAINED_FRAMES
    &&& forall|i: int| 0 <= i < bufs.len() ==> (#[trigger] bufs[i]).capacity() == cap
    &&& k <= steps.len() <= k + 1
    &&& control_after.len() == control_before.len() + k
    &&& control_after.take(control_before.len() as int) == control_before
    &&& forall|i: int|
        0 <= i < k ==> control_after[control_before.len() + i] == with_length(
            #[trigger] bufs[i],
            steps[i]->WriteToNetwork_0,
        )
    &&& steps.len() == k ==> released_after == released_before
    &&& steps.len() == k + 1 ==> released_after == released_before.push(bufs[k as int])
    &&& r is Ok && steps.len() == k ==> steps.len() == MAX_DRAINED_FRAMES
    &&& r is Err ==> r == Err::<(), PluginError>(PluginError::Bounds) && steps.len() == k + 1
}

/// The effect of one `decapsulate` call with an engine and a big enough
/// receive buffer: the engine answered `first` in `buffer` (the receive
/// buffer, of capacity `receive_cap`), which is settled as
/// `dispose_decapsulated` does; after a fitting frame, draining went as
/// `drains` says with send buffers of capacity `send_cap`.
pub open spec fn decapsulates(
    packets_before: Seq<VpnPacketBuffer>,
    packets_after: Seq<VpnPacketBuffer>,
    control_before: Seq<VpnPacketBuffer>,
    control_after: Seq<VpnPacketBuffer>,
    released_before: Seq<VpnPacketBuffer>,
    released_after: Seq<VpnPacketBuffer>,
    r: Result<(), PluginError>,
    receive_cap: usize,
    send_cap: usize,
    first: EngineOutcome,
    buffer: VpnPacketBuffer,
    steps: Seq<EngineOutcome>,
    bufs: Seq<VpnPacketBuffer>,
) -> bool {
    let unchanged = packets_after == packets_before && control_after == control_before;
    let refused = unchanged && released_after == released_before.push(buffer);
    &&& buffer.capacity() == receive_cap
    &&& buffer.length == 0
    &&& match first {
        EngineOutcome::Done => refused && r is Ok,
        EngineOutcome::Failed(e) => refused && r == Err::<(), PluginError>(PluginError::Protocol(e)),
        EngineOutcome::WriteToNetwork(n) => if fits_u32(n) {
            &&& packets_after == packets_before
            &&& drains(
                control_before.push(with_length(buffer, n)),
                control_after,
                released_before,
                released_after,
                r,
                send_cap,
                steps,
                bufs,
            )
        } else {
            refused && r == Err::<(), PluginError>(PluginError::Bounds)
        },
        EngineOutcome::WriteToTunnelV4(n) | EngineOutcome::WriteToTunnelV6(n) => if fits_u32(n) {
            &&& packets_after == packets_before.push(with_length(buffer, n))
            &&& control_after == control_before
            &&& released_after == released_before
            &&& r is Ok
        } else {
            refused && r == Err::<(), PluginError>(PluginError::Bounds)
        },
    }
}

} // verus!
