//! Packet buffers as the host hands them out, the lists they travel in, and
//! the pool that fresh buffers come from.

use vstd::prelude::*;

verus! {

/// A byte region of fixed capacity, of which the first `length` bytes hold
/// data.
pub struct VpnPacketBuffer {
    pub data: Vec<u8>,
    pub length: u32,
}

impl VpnPacketBuffer {
    /// The length never exceeds the capacity.
    pub open spec fn wf(&self) -> bool {
        self.length as int <= self.data@.len()
    }

    pub open spec fn capacity(&self) -> nat {
        self.data@.len()
    }

    /// The bytes that hold data.
    pub open spec fn contents(&self) -> Seq<u8> {
        self.data@.take(self.length as int)
    }

    /// A buffer that is full of `bytes`.
    pub fn from_bytes(bytes: Vec<u8>) -> (r: VpnPacketBuffer)
        requires
            bytes@.len() <= u32::MAX,
        ensures
            r.wf(),
            r.data@ == bytes@,
            r.length == bytes@.len(),
            r.contents() == bytes@,
    {
        let length = bytes.len() as u32;
        let r = VpnPacketBuffer { data: bytes, length };
        assert(r.data@.take(length as int) =~= bytes@);
        r
    }

    /// The bytes that hold data.
    pub fn get_buf(&self) -> (r: &[u8])
        requires
            self.wf(),
        ensures
            r@ == self.contents(),
    {
        let s = self.data.as_slice();
        &s[0..self.length as usize]
    }

    /// A copy of the bytes that hold data.
    pub fn to_vec(&self) -> (r: Vec<u8>)
        requires
            self.wf(),
        ensures
            r@ == self.contents(),
    {
        let mut r: Vec<u8> = Vec::new();
        let n = self.length as usize;
        let mut i: usize = 0;
        while i < n
            invariant
                n == self.length,
                n <= self.data@.len(),
                i <= n,
                r@ == self.data@.take(i as int),
            decreases n - i,
        {
            r.push(self.data[i]);
            i = i + 1;
            assert(r@ =~= self.data@.take(i as int));
        }
        r
    }

    /// Marks the first `length` bytes as data.
    pub fn set_length(&mut self, length: u32)
        requires
            length as int <= old(self).capacity(),
        ensures
            final(self).data == old(self).data,
            final(self).length == length,
            final(self).wf(),
    {
        self.length = length;
    }
}

/// An ordered list of packet buffers, as the host passes them in and takes
/// them back.
pub struct VpnPacketBufferList {
    pub items: Vec<VpnPacketBuffer>,
}

impl VpnPacketBufferList {
    pub open spec fn view(&self) -> Seq<VpnPacketBuffer> {
        self.items@
    }

    /// Every buffer in the list is well formed.
    pub open spec fn wf(&self) -> bool {
        forall|i: int| 0 <= i < self.items@.len() ==> #[trigger] self.items@[i].wf()
    }

    pub fn new() -> (r: VpnPacketBufferList)
        ensures
            r@ == Seq::<VpnPacketBuffer>::empty(),
            r.wf(),
    {
        VpnPacketBufferList { items: Vec::new() }
    }

    /// A list holding `items`, in order.
    pub fn from_vec(items: Vec<VpnPacketBuffer>) -> (r: VpnPacketBufferList)
        ensures
            r@ == items@,
    {
        VpnPacketBufferList { items }
    }

    pub fn size(&self) -> (r: usize)
        ensures
            r == self@.len(),
    {
        self.items.len()
    }

    pub fn get(&self, i: usize) -> (r: &VpnPacketBuffer)
        requires
            i < self@.len(),
        ensures
            *r == self@[i as int],
    {
        &self.items[i]
    }

    /// Adds `b` at the end.
    pub fn append(&mut self, b: VpnPacketBuffer)
        ensures
            final(self)@ == old(self)@.push(b),
    {
        self.items.push(b);
    }

    /// Takes the first buffer out.
    pub fn remove_at_begin(&mut self) -> (r: VpnPacketBuffer)
        requires
            old(self)@.len() > 0,
        ensures
            r == old(self)@[0],
            final(self)@ == old(self)@.drop_first(),
    {
        self.items.remove(0)
    }
}

/// The host's source of fresh buffers, one size for each direction, and its
/// sink for buffers that were requested but not used.
pub struct BufferPool {
    pub send_capacity: usize,
    pub receive_capacity: usize,
    pub released: Vec<VpnPacketBuffer>,
}

/// A buffer of `cap` zero bytes that holds no data yet.
pub open spec fn is_fresh(b: VpnPacketBuffer, cap: usize) -> bool {
    &&& b.data@ == Seq::new(cap as nat, |i: int| 0u8)
    &&& b.length == 0
}

impl BufferPool {
    pub fn new(send_capacity: usize, receive_capacity: usize) -> (r: BufferPool)
        ensures
            r.send_capacity == send_capacity,
            r.receive_capacity == receive_capacity,
            r.released@.len() == 0,
    {
        BufferPool { send_capacity, receive_capacity, released: Vec::new() }
    }

    /// A fresh buffer for a frame or packet to send.
    pub fn get_send_buffer(&self) -> (r: VpnPacketBuffer)
        ensures
            is_fresh(r, self.send_capacity),
            r.wf(),
    {
        let r = VpnPacketBuffer { data: vec![0u8; self.send_capacity], length: 0 };
        assert(r.data@ =~= Seq::new(self.send_capacity as nat, |i: int| 0u8));
        r
    }

    /// A fresh buffer for a frame or packet received.
    pub fn get_receive_buffer(&self) -> (r: VpnPacketBuffer)
        ensures
            is_fresh(r, self.receive_capacity),
            r.wf(),
    {
        let r = VpnPacketBuffer { data: vec![0u8; self.receive_capacity], length: 0 };
        assert(r.data@ =~= Seq::new(self.receive_capacity as nat, |i: int| 0u8));
        r
    }

    /// Gives an unused buffer back.
    pub fn release(&mut self, b: VpnPacketBuffer)
        ensures
            final(self).send_capacity == old(self).send_capacity,
            final(self).receive_capacity == old(self).receive_capacity,
            final(self).released@ == old(self).released@.push(b),
    {
        self.released.push(b);
    }

    /// How many buffers were given back.
    pub fn released_count(&self) -> (r: usize)
        ensures
            r == self.released@.len(),
    {
        self.released.len()
    }
}

} // verus!
