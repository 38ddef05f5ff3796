//! Packet buffer arena.
//!
//! The radio driver works in two statically-sized byte buffers, one for
//! transmit and one for receive, handed over exactly once at startup.
//! Exclusive use is enforced by ownership: the arena is consumed when it is
//! split, so a second pair of handles can never exist.

use vstd::prelude::*;

verus! {

/// Capacity of one link-layer packet buffer: one protocol data unit, two
/// header bytes and up to 37 payload bytes.
pub const MAX_PDU_BYTES: usize = 39;

/// One fixed-size link-layer packet buffer; never resized.
pub struct PacketBuffer {
    data: Vec<u8>,
}

impl PacketBuffer {
    /// The buffer's bytes.
    pub closed spec fn bytes(self) -> Seq<u8> {
        self.data@
    }

    /// Well-formed: backing store for exactly one protocol data unit.
    pub open spec fn wf(self) -> bool {
        self.bytes().len() == MAX_PDU_BYTES
    }

    /// A zeroed packet buffer.
    pub fn new() -> (b: PacketBuffer)
        ensures
            b.wf(),
            forall|i: int| 0 <= i < MAX_PDU_BYTES ==> b.bytes()[i] == 0,
    {
        let mut data: Vec<u8> = Vec::new();
        let mut i: usize = 0;
        while i < MAX_PDU_BYTES
            invariant
                i <= MAX_PDU_BYTES,
                data@.len() == i,
                forall|j: int| 0 <= j < i ==> data@[j] == 0,
            decreases MAX_PDU_BYTES - i,
        {
            data.push(0);
            i += 1;
        }
        PacketBuffer { data }
    }

    /// The buffer's capacity.
    pub fn len(&self) -> (n: usize)
        requires
            self.wf(),
        ensures
            n == MAX_PDU_BYTES,
    {
        self.data.len()
    }

    /// The byte at `i`.
    pub fn get(&self, i: usize) -> (b: u8)
        requires
            self.wf(),
            i < MAX_PDU_BYTES,
        ensures
            b == self.bytes()[i as int],
    {
        self.data[i]
    }

    /// Overwrite the byte at `i`.
    pub fn set(&mut self, i: usize, b: u8)
        requires
            old(self).wf(),
            i < MAX_PDU_BYTES,
        ensures
            final(self).wf(),
            final(self).bytes() == old(self).bytes().update(i as int, b),
    {
        self.data[i] = b;
    }
}

/// The arena: both packet buffers, constructed once at startup from their
/// raw stores.
pub struct PacketArena {
    tx: PacketBuffer,
    rx: PacketBuffer,
}

impl PacketArena {
    /// The transmit buffer's bytes.
    pub closed spec fn tx_bytes(self) -> Seq<u8> {
        self.tx.bytes()
    }

    /// The receive buffer's bytes.
    pub closed spec fn rx_bytes(self) -> Seq<u8> {
        self.rx.bytes()
    }

    /// Well-formed: both stores hold exactly one protocol data unit.
    pub open spec fn wf(self) -> bool {
        self.tx_bytes().len() == MAX_PDU_BYTES && self.rx_bytes().len() == MAX_PDU_BYTES
    }

    /// Take ownership of the two raw buffers.
    pub fn new(tx: PacketBuffer, rx: PacketBuffer) -> (a: PacketArena)
        requires
            tx.wf(),
            rx.wf(),
        ensures
            a.wf(),
            a.tx_bytes() == tx.bytes(),
            a.rx_bytes() == rx.bytes(),
    {
        PacketArena { tx, rx }
    }

    /// Hand the transmit and receive buffers to the radio driver. Consuming
    /// the arena makes this possible exactly once: no second pair of
    /// handles to the same stores can be produced.
    pub fn split(self) -> (r: (PacketBuffer, PacketBuffer))
        requires
            self.wf(),
        ensures
            r.0.wf(),
            r.1.wf(),
            r.0.bytes() == self.tx_bytes(),
            r.1.bytes() == self.rx_bytes(),
    {
        (self.tx, self.rx)
    }
}

} // verus!
