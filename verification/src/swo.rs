//! Trace stimulus port writes.
//!
//! A stimulus port is a handle on one word of the trace unit's address
//! space; the port's address is `base + (port_number << 2)`. The sink is
//! fire-and-forget: it accepts byte groups without any failure signalling.
//! [`TraceBus`] models the sink as the sequence of atomic writes it has
//! accepted, so the contracts can say exactly which bytes each write hands
//! over: the value's bytes in big-endian order, never split.

use vstd::prelude::*;

verus! {

/// Number of stimulus ports the trace unit exposes.
pub const PORTS_COUNT: u8 = 32;

/// Base of the trace unit's stimulus address range.
pub const ADDRESS_BASE: usize = 0xE000_0000;

/// The word-aligned address of a stimulus port.
pub open spec fn spec_port_address(port: u8) -> int {
    ADDRESS_BASE + 4 * port
}

/// One atomic write accepted by the trace sink.
pub struct TraceWrite {
    /// The stimulus address written to.
    pub address: usize,
    /// The bytes handed over, in the order they appear on the trace stream.
    pub bytes: Vec<u8>,
}

/// The trace sink, as the sequence of atomic writes it has accepted.
pub struct TraceBus {
    /// Accepted writes, oldest first.
    pub writes: Vec<TraceWrite>,
}

impl TraceBus {
    /// A sink that has accepted nothing yet.
    pub fn new() -> (r: Self)
        ensures
            r.writes@.len() == 0,
    {
        Self { writes: Vec::new() }
    }

    /// How many atomic writes the sink has accepted.
    pub fn len(&self) -> (n: usize)
        ensures
            n == self.writes@.len(),
    {
        self.writes.len()
    }

    /// The `i`-th accepted write, oldest first.
    pub fn write_at(&self, i: usize) -> (w: &TraceWrite)
        requires
            i < self.writes@.len(),
        ensures
            *w == self.writes@[i as int],
    {
        &self.writes[i]
    }
}

/// The sink accepted exactly one more write — `bytes` at `address` — and
/// kept every earlier write unchanged.
pub open spec fn trace_appended(
    pre: TraceBus,
    post: TraceBus,
    address: usize,
    bytes: Seq<u8>,
) -> bool {
    &&& post.writes@.len() == pre.writes@.len() + 1
    &&& forall|i: int| 0 <= i < pre.writes@.len() ==> post.writes@[i] == pre.writes@[i]
    &&& post.writes@[pre.writes@.len() as int].address == address
    &&& post.writes@[pre.writes@.len() as int].bytes@ == bytes
}

/// The sink accepted the byte sequence `bytes` at `address`, grouped as
/// whole big-endian words followed by single bytes: one atomic write per
/// full four-byte group, then one per leftover byte, with every earlier
/// write unchanged. Concatenating the appended writes' bytes gives `bytes`.
pub open spec fn trace_bytes_appended(
    pre: TraceBus,
    post: TraceBus,
    address: usize,
    bytes: Seq<u8>,
) -> bool {
    let words = bytes.len() as int / 4;
    let tail = bytes.len() as int % 4;
    &&& post.writes@.len() == pre.writes@.len() + words + tail
    &&& forall|i: int| 0 <= i < pre.writes@.len() ==> post.writes@[i] == pre.writes@[i]
    &&& forall|w: int|
        0 <= w < words ==> #[trigger] post.writes@[pre.writes@.len() + w].address == address
            && post.writes@[pre.writes@.len() + w].bytes@ == bytes.subrange(4 * w, 4 * w + 4)
    &&& forall|t: int|
        0 <= t < tail ==> #[trigger] post.writes@[pre.writes@.len() + words + t].address
            == address && post.writes@[pre.writes@.len() + words + t].bytes@ == seq![
            bytes[4 * words + t],
        ]
}

/// A value that can be handed to a stimulus port in one atomic write.
pub trait PortWrite: Copy + Sized {
    /// The value's bytes in big-endian order.
    spec fn be_bytes(self) -> Seq<u8>;

    /// Writes the value to `address` as one atomic write: all of its bytes
    /// together, in big-endian order.
    fn port_write(bus: &mut TraceBus, address: usize, value: Self)
        ensures
            trace_appended(*old(bus), *final(bus), address, value.be_bytes()),
    ;
}

impl PortWrite for u8 {
    open spec fn be_bytes(self) -> Seq<u8> {
        seq![self]
    }

    fn port_write(bus: &mut TraceBus, address: usize, value: u8) {
        let mut bytes: Vec<u8> = Vec::new();
        bytes.push(value);
        proof {
            assert(bytes@ =~= value.be_bytes());
        }
        bus.writes.push(TraceWrite { address, bytes });
    }
}

impl PortWrite for u16 {
    open spec fn be_bytes(self) -> Seq<u8> {
        seq![(self >> 8) as u8, self as u8]
    }

    fn port_write(bus: &mut TraceBus, address: usize, value: u16) {
        let mut bytes: Vec<u8> = Vec::new();
        bytes.push((value >> 8u16) as u8);
        bytes.push(value as u8);
        proof {
            assert(bytes@ =~= value.be_bytes());
        }
        bus.writes.push(TraceWrite { address, bytes });
    }
}

impl PortWrite for u32 {
    open spec fn be_bytes(self) -> Seq<u8> {
        seq![(self >> 24) as u8, (self >> 16) as u8, (self >> 8) as u8, self as u8]
    }

    fn port_write(bus: &mut TraceBus, address: usize, value: u32) {
        let mut bytes: Vec<u8> = Vec::new();
        bytes.push((value >> 24u32) as u8);
        bytes.push((value >> 16u32) as u8);
        bytes.push((value >> 8u32) as u8);
        bytes.push(value as u8);
        proof {
            assert(bytes@ =~= value.be_bytes());
        }
        bus.writes.push(TraceWrite { address, bytes });
    }
}

/// Trace stimulus port handle.
#[derive(Clone, Copy, PartialEq, Eq, Structural, Debug)]
pub struct Port {
    address: usize,
}

impl Port {
    /// The stimulus address this handle writes to.
    pub closed spec fn spec_address(&self) -> usize {
        self.address
    }

    /// Creates a handle on stimulus port `address`, which must be below
    /// [`PORTS_COUNT`].
    pub fn new(address: u8) -> (r: Self)
        requires
            address < PORTS_COUNT,
        ensures
            r.spec_address() == spec_port_address(address),
    {
        Self { address: ADDRESS_BASE + (address as usize) * 4 }
    }

    /// Writes a sequence of bytes to the stimulus port: whole words where
    /// possible — each a big-endian four-byte group in one atomic write —
    /// and the leftover bytes one by one. Only the grouping differs from
    /// byte-by-byte writing; the byte stream handed to the sink is `bytes`
    /// in order, and it may interleave with concurrent writes at group
    /// boundaries. See [`Port::write`] for atomic byte groups.
    pub fn write_bytes(self, bus: &mut TraceBus, bytes: &[u8]) -> (r: Self)
        ensures
            r == self,
            trace_bytes_appended(*old(bus), *final(bus), self.spec_address(), bytes@),
    {
        let n = bytes.len();
        let words = n / 4;
        let mut w: usize = 0;
        while w < words
            invariant
                words == bytes@.len() / 4,
                n == bytes@.len(),
                w <= words,
                bus.writes@.len() == old(bus).writes@.len() + w,
                forall|i: int|
                    0 <= i < old(bus).writes@.len() ==> bus.writes@[i] == old(bus).writes@[i],
                forall|k: int|
                    0 <= k < w ==> #[trigger] bus.writes@[old(bus).writes@.len() + k].address
                        == self.spec_address() && bus.writes@[old(bus).writes@.len() + k].bytes@
                        == bytes@.subrange(4 * k, 4 * k + 4),
            decreases words - w,
        {
            let b0 = bytes[4 * w];
            let b1 = bytes[4 * w + 1];
            let b2 = bytes[4 * w + 2];
            let b3 = bytes[4 * w + 3];
            let value: u32 = ((b0 as u32) << 24u32) | ((b1 as u32) << 16u32) | ((b2 as u32)
                << 8u32) | (b3 as u32);
            proof {
                assert((value >> 24) as u8 == b0 && (value >> 16) as u8 == b1 && (value >> 8) as u8
                    == b2 && value as u8 == b3) by (bit_vector)
                    requires
                        value == ((b0 as u32) << 24u32) | ((b1 as u32) << 16u32) | ((b2 as u32)
                            << 8u32) | (b3 as u32),
                ;
                assert(value.be_bytes() =~= bytes@.subrange(4 * w, 4 * w + 4));
            }
            u32::port_write(bus, self.address, value);
            w = w + 1;
        }
        let mut t: usize = 4 * words;
        while t < n
            invariant
                words == bytes@.len() / 4,
                n == bytes@.len(),
                4 * words <= t <= n,
                n < 4 * words + 4,
                bus.writes@.len() == old(bus).writes@.len() + t - 3 * words,
                forall|i: int|
                    0 <= i < old(bus).writes@.len() ==> bus.writes@[i] == old(bus).writes@[i],
                forall|k: int|
                    0 <= k < words ==> #[trigger] bus.writes@[old(bus).writes@.len() + k].address
                        == self.spec_address() && bus.writes@[old(bus).writes@.len() + k].bytes@
                        == bytes@.subrange(4 * k, 4 * k + 4),
                forall|q: int|
                    0 <= q < t - 4 * words ==> #[trigger] bus.writes@[old(bus).writes@.len()
                        + words + q].address == self.spec_address() && bus.writes@[old(
                        bus,
                    ).writes@.len() + words + q].bytes@ == seq![bytes@[4 * words + q]],
            decreases n - t,
        {
            let value = bytes[t];
            proof {
                assert(value.be_bytes() =~= seq![bytes@[t as int]]);
            }
            u8::port_write(bus, self.address, value);
            t = t + 1;
        }
        proof {
            let pre = *old(bus);
            let post = *bus;
            let words_g = bytes@.len() as int / 4;
            let tail_g = bytes@.len() as int % 4;
            assert(post.writes@.len() == pre.writes@.len() + words_g + tail_g);
            assert(forall|i: int|
                0 <= i < pre.writes@.len() ==> post.writes@[i] == pre.writes@[i]);
            assert(forall|k: int|
                0 <= k < words_g ==> #[trigger] post.writes@[pre.writes@.len() + k].address
                    == self.spec_address() && post.writes@[pre.writes@.len() + k].bytes@
                    == bytes@.subrange(4 * k, 4 * k + 4));
            assert(bytes@.len() as int == 4 * words_g + tail_g);
            assert forall|q: int|
                0 <= q < tail_g implies #[trigger] post.writes@[pre.writes@.len() + words_g
                    + q].address == self.spec_address() && post.writes@[pre.writes@.len()
                    + words_g + q].bytes@ == seq![bytes@[4 * words_g + q]] by {
                assert(words == words_g);
                assert(bus.writes@[old(bus).writes@.len() + words + q].address
                    == self.spec_address() && bus.writes@[old(bus).writes@.len() + words
                    + q].bytes@ == seq![bytes@[4 * words + q]]);
            }
            assert(trace_bytes_appended(pre, post, self.spec_address(), bytes@));
        }
        self
    }

    /// Writes an atomic byte group to the stimulus port. `T` can be one of
    /// `u8`, `u16`, `u32`. Bytes go out in big-endian order, all together:
    /// the value is never split across writes.
    pub fn write<T: PortWrite>(self, bus: &mut TraceBus, value: T) -> (r: Self)
        ensures
            r == self,
            trace_appended(*old(bus), *final(bus), self.spec_address(), value.be_bytes()),
    {
        let Self { address } = self;
        T::port_write(bus, address, value);
        self
    }
}

} // verus!
