use vstd::prelude::*;

verus! {

/// One access of the CPU to a port: a read that returned `value`, or a
/// write of `value`, at the 16 bit port `address`.
#[derive(Clone, Copy)]
pub enum PortAccess {
    Read { address: u16, value: u8 },
    Write { address: u16, value: u8 },
}

/// The accesses made to the ports of a device, in order. Its view is the
/// sequence of accesses; it holds no data at run time.
#[derive(Clone, Copy)]
pub struct PortLog {
    accesses: Ghost<Seq<PortAccess>>,
}

impl View for PortLog {
    type V = Seq<PortAccess>;

    closed spec fn view(&self) -> Seq<PortAccess> {
        self.accesses@
    }
}

impl PortLog {
    /// A log with no access.
    pub fn new() -> (l: PortLog)
        ensures
            l@ == Seq::<PortAccess>::empty(),
    {
        PortLog { accesses: Ghost(Seq::empty()) }
    }

    /// Appends an access to the log.
    pub fn record(&mut self, access: PortAccess)
        ensures
            final(self)@ == old(self)@.push(access),
    {
        self.accesses = Ghost(self.accesses@.push(access));
    }
}

/// Abstraction of the device hosting the Z80 CPU
///
/// The device hosting the CPU has to provide implementations
/// of the memory and port access. A simple implementation is
/// provided with PlainMachine
///
/// The memory is described by two spec functions: `peek_spec` is what a read
/// of an address returns, `stores` says whether a write to the address is
/// kept (it is false for addresses where the device has no memory).
/// `port_log` is the list of the port accesses made so far: `port_in` and
/// `port_out` append theirs, the other methods leave it as it is.
pub trait Machine: Sized {
    /// The port accesses made so far.
    spec fn port_log(&self) -> PortLog;

    /// The byte that a read of `address` returns.
    spec fn peek_spec(&self, address: u32) -> u8;

    /// Whether a write to `address` is kept.
    spec fn stores(&self, address: u32) -> bool;

    /// Returns the memory contents in [address]
    fn peek(&self, address: u32) -> (value: u8)
        ensures
            value == self.peek_spec(address),
    ;

    /// Sets the memory content to [value] in [address]
    fn poke(&mut self, address: u32, value: u8)
        ensures
            final(self).port_log()@ == old(self).port_log()@,
            forall|a: u32| #[trigger] final(self).stores(a) == old(self).stores(a),
            forall|a: u32|
                #[trigger] final(self).peek_spec(a) == if a == address && old(self).stores(address) {
                    value
                } else {
                    old(self).peek_spec(a)
                },
    ;

    /// Returns the memory contents in [address] as word
    /// (the address of the second byte wraps on 32 bits)
    fn _peek16(&self, address: u32) -> (value: u16)
        ensures
            value == self.peek_spec(address) + 256 * self.peek_spec(address.wrapping_add(1)),
    {
        (self.peek(address) as u16) + ((self.peek(address.wrapping_add(1)) as u16) * 256)
    }

    /// Sets the memory content to the word [value] in [address]
    fn _poke16(&mut self, address: u32, value: u16)
        ensures
            final(self).port_log()@ == old(self).port_log()@,
            forall|a: u32| #[trigger] final(self).stores(a) == old(self).stores(a),
            forall|a: u32|
                a != address && a != address.wrapping_add(1) ==> #[trigger] final(self).peek_spec(a)
                    == old(self).peek_spec(a),
            old(self).stores(address.wrapping_add(1))
                ==> final(self).peek_spec(address.wrapping_add(1)) == value / 256,
            old(self).stores(address) && address != address.wrapping_add(1)
                ==> final(self).peek_spec(address) == value % 256,
    {
        self.poke(address, (value % 256) as u8);
        self.poke(address.wrapping_add(1), (value / 256) as u8);
    }

    /// Returns the memory contents in [address] as 24 bit value
    fn _peek24(&self, address: u32) -> (value: u32)
        ensures
            value == self.peek_spec(address) + 256 * self.peek_spec(address.wrapping_add(1)) + 65536
                * self.peek_spec(address.wrapping_add(2)),
    {
        (self.peek(address) as u32) + ((self.peek(address.wrapping_add(1)) as u32) * 256) + ((
        self.peek(address.wrapping_add(2)) as u32) * 65536)
    }

    /// Sets the memory content to the low 24 bits of [value] in [address]
    fn _poke24(&mut self, address: u32, value: u32)
        ensures
            final(self).port_log()@ == old(self).port_log()@,
            forall|a: u32| #[trigger] final(self).stores(a) == old(self).stores(a),
            forall|a: u32|
                a != address && a != address.wrapping_add(1) && a != address.wrapping_add(2)
                    ==> #[trigger] final(self).peek_spec(a) == old(self).peek_spec(a),
            old(self).stores(address.wrapping_add(2))
                ==> final(self).peek_spec(address.wrapping_add(2)) == value / 65536 % 256,
            old(self).stores(address.wrapping_add(1)) && address.wrapping_add(1) != address.wrapping_add(2)
                ==> final(self).peek_spec(address.wrapping_add(1)) == value / 256 % 256,
            old(self).stores(address) && address != address.wrapping_add(1) && address != address.wrapping_add(2)
                ==> final(self).peek_spec(address) == value % 256,
    {
        self.poke(address, (value % 256) as u8);
        self.poke(address.wrapping_add(1), (value / 256 % 256) as u8);
        self.poke(address.wrapping_add(2), (value / 65536 % 256) as u8);
    }

    /// Port in, from the device to the CPU. Returns the port value
    /// in the hosting device.
    fn port_in(&mut self, address: u16) -> (value: u8)
        ensures
            final(self).port_log()@ == old(self).port_log()@.push(PortAccess::Read { address, value }),
            forall|a: u32| #[trigger] final(self).peek_spec(a) == old(self).peek_spec(a),
            forall|a: u32| #[trigger] final(self).stores(a) == old(self).stores(a),
    ;

    /// Port out, from the CPU to the device. Sets a port value on
    /// the hosting device.
    fn port_out(&mut self, address: u16, value: u8)
        ensures
            final(self).port_log()@ == old(self).port_log()@.push(PortAccess::Write { address, value }),
            forall|a: u32| #[trigger] final(self).peek_spec(a) == old(self).peek_spec(a),
            forall|a: u32| #[trigger] final(self).stores(a) == old(self).stores(a),
    ;

    /// Informs the device of extra CPU cycles spent by an instruction.
    fn use_cycles(&mut self, cycles: i32)
        ensures
            final(self).port_log()@ == old(self).port_log()@,
            forall|a: u32| #[trigger] final(self).peek_spec(a) == old(self).peek_spec(a),
            forall|a: u32| #[trigger] final(self).stores(a) == old(self).stores(a),
    {
    }
}

/// Two states of a device with the same memory and the same port accesses.
pub open spec fn same_memory<M: Machine>(m1: M, m2: M) -> bool {
    &&& forall|a: u32|
        #![trigger m1.peek_spec(a)]
        #![trigger m2.peek_spec(a)]
        m1.peek_spec(a) == m2.peek_spec(a)
    &&& forall|a: u32|
        #![trigger m1.stores(a)]
        #![trigger m2.stores(a)]
        m1.stores(a) == m2.stores(a)
    &&& m1.port_log()@ == m2.port_log()@
}

/// Size of the memory and of the port space of a PlainMachine.
pub const PLAIN_MEMORY_SIZE: usize = 0x40000;

/// A simple Machine implementation
///
/// A minimum implementation of Machine. It uses two arrays of 4*65536 bytes to back the peeks and
/// pokes to memory and the ins and outs of ports. Reads beyond the memory
/// return 0 and writes beyond it are dropped.
pub struct PlainMachine {
    mem: Vec<u8>,
    io: Vec<u8>,
    log: PortLog,
}

impl PlainMachine {
    /// Whether all 65536 ports are backed by the port array.
    pub closed spec fn ports_ready(&self) -> bool {
        self.io@.len() >= 65536
    }

    /// The value that a port read of `address` returns.
    pub closed spec fn port_spec(&self, address: u16) -> u8 {
        if address < self.io@.len() {
            self.io@[address as int]
        } else {
            0
        }
    }

    /// Returns a new PlainMachine instance, with memory and ports at zero.
    pub fn new() -> (m: PlainMachine)
        ensures
            forall|a: u32| #[trigger] m.peek_spec(a) == 0,
            forall|a: u32| #[trigger] m.stores(a) == (a < PLAIN_MEMORY_SIZE),
            forall|a: u16| #[trigger] m.port_spec(a) == 0,
            m.ports_ready(),
            m.port_log()@ == Seq::<PortAccess>::empty(),
    {
        let mut mem: Vec<u8> = Vec::new();
        let mut i: usize = 0;
        while i < PLAIN_MEMORY_SIZE
            invariant
                i <= PLAIN_MEMORY_SIZE,
                mem@.len() == i,
                forall|j: int| 0 <= j < i ==> mem@[j] == 0,
            decreases PLAIN_MEMORY_SIZE - i,
        {
            mem.push(0);
            i = i + 1;
        }
        let io = mem.clone();
        assert(io@ == mem@);
        PlainMachine { mem, io, log: PortLog::new() }
    }
}

impl Machine for PlainMachine {
    closed spec fn port_log(&self) -> PortLog {
        self.log
    }

    closed spec fn peek_spec(&self, address: u32) -> u8 {
        if address < self.mem@.len() {
            self.mem@[address as int]
        } else {
            0
        }
    }

    closed spec fn stores(&self, address: u32) -> bool {
        address < self.mem@.len()
    }

    fn peek(&self, address: u32) -> (value: u8) {
        if (address as usize) < self.mem.len() {
            self.mem[address as usize]
        } else {
            0
        }
    }

    fn poke(&mut self, address: u32, value: u8)
        ensures
            final(self).ports_ready() == old(self).ports_ready(),
            forall|a: u16| #[trigger] final(self).port_spec(a) == old(self).port_spec(a),
    {
        if (address as usize) < self.mem.len() {
            self.mem.set(address as usize, value);
        }
    }

    fn port_in(&mut self, address: u16) -> (value: u8)
        ensures
            value == old(self).port_spec(address),
            final(self).ports_ready() == old(self).ports_ready(),
            forall|a: u16| #[trigger] final(self).port_spec(a) == old(self).port_spec(a),
    {
        let value = if (address as usize) < self.io.len() {
            self.io[address as usize]
        } else {
            0
        };
        self.log.record(PortAccess::Read { address, value });
        value
    }

    fn port_out(&mut self, address: u16, value: u8)
        ensures
            final(self).ports_ready() == old(self).ports_ready(),
            old(self).ports_ready() ==> forall|a: u16| #[trigger] final(self).port_spec(a) == if a == address {
                value
            } else {
                old(self).port_spec(a)
            },
    {
        if (address as usize) < self.io.len() {
            self.io.set(address as usize, value);
        }
        self.log.record(PortAccess::Write { address, value });
    }
}

} // verus!

verus! {

/// The byte that a read of `a` returns after the writes `writes`, applied in
/// order, to a device in state `m` (a write to an address that the device
/// does not store has no effect).
pub open spec fn byte_after<M: Machine>(m: M, writes: Seq<(u32, u8)>, a: u32) -> u8
    decreases writes.len(),
{
    if writes.len() == 0 {
        m.peek_spec(a)
    } else {
        let (x, v) = writes.last();
        if a == x && m.stores(x) {
            v
        } else {
            byte_after(m, writes.drop_last(), a)
        }
    }
}

/// The memory of `m1` is that of `m0` after the writes `writes`, applied in
/// order.
pub open spec fn memory_after<M: Machine>(m0: M, m1: M, writes: Seq<(u32, u8)>) -> bool {
    &&& forall|a: u32| #[trigger] m1.stores(a) == m0.stores(a)
    &&& forall|a: u32| #[trigger] m1.peek_spec(a) == byte_after(m0, writes, a)
}

/// `m1` is the device `m0` after the writes `writes`, applied in order, with
/// no port access.
pub open spec fn memory_written<M: Machine>(m0: M, m1: M, writes: Seq<(u32, u8)>) -> bool {
    &&& memory_after(m0, m1, writes)
    &&& m1.port_log()@ == m0.port_log()@
}

/// `m1` is the device `m0` after the memory writes `writes` and the port
/// accesses `ports`.
pub open spec fn io_written<M: Machine>(m0: M, m1: M, writes: Seq<(u32, u8)>, ports: Seq<PortAccess>) -> bool {
    &&& memory_after(m0, m1, writes)
    &&& m1.port_log()@ == m0.port_log()@ + ports
}

/// A single write as the trait's `poke` describes it.
pub proof fn lemma_poke_written<M: Machine>(m0: M, m1: M, address: u32, value: u8)
    requires
        m1.port_log()@ == m0.port_log()@,
        forall|a: u32| #[trigger] m1.stores(a) == m0.stores(a),
        forall|a: u32|
            #[trigger] m1.peek_spec(a) == if a == address && m0.stores(address) {
                value
            } else {
                m0.peek_spec(a)
            },
    ensures
        memory_written(m0, m1, seq![(address, value)]),
{
    assert forall|a: u32| #[trigger] m1.peek_spec(a) == byte_after(m0, seq![(address, value)], a) by {
        let w = seq![(address, value)];
        assert(w.drop_last() =~= Seq::<(u32, u8)>::empty());
        assert(byte_after(m0, w.drop_last(), a) == m0.peek_spec(a));
    }
}

proof fn lemma_byte_after_concat<M: Machine>(
    m0: M,
    m1: M,
    w1: Seq<(u32, u8)>,
    w2: Seq<(u32, u8)>,
    a: u32,
)
    requires
        memory_after(m0, m1, w1),
    ensures
        byte_after(m1, w2, a) == byte_after(m0, w1 + w2, a),
    decreases w2.len(),
{
    if w2.len() == 0 {
        assert(w1 + w2 =~= w1);
    } else {
        assert((w1 + w2).drop_last() =~= w1 + w2.drop_last());
        assert((w1 + w2).last() == w2.last());
        let (x, v) = w2.last();
        assert(m1.stores(x) == m0.stores(x));
        lemma_byte_after_concat(m0, m1, w1, w2.drop_last(), a);
    }
}

/// Writes made one after the other compose: the memory after both lists is
/// the memory after their concatenation.
pub proof fn lemma_memory_written_compose<M: Machine>(
    m0: M,
    m1: M,
    m2: M,
    w1: Seq<(u32, u8)>,
    w2: Seq<(u32, u8)>,
)
    requires
        memory_written(m0, m1, w1),
        memory_written(m1, m2, w2),
    ensures
        memory_written(m0, m2, w1 + w2),
{
    assert forall|a: u32| #[trigger] m2.peek_spec(a) == byte_after(m0, w1 + w2, a) by {
        lemma_byte_after_concat(m0, m1, w1, w2, a);
    }
    assert forall|a: u32| #[trigger] m2.stores(a) == m0.stores(a) by {
        assert(m2.stores(a) == m1.stores(a));
    }
}

/// Memory writes and port accesses made one after the other compose.
pub proof fn lemma_io_written_compose<M: Machine>(
    m0: M,
    m1: M,
    m2: M,
    w1: Seq<(u32, u8)>,
    w2: Seq<(u32, u8)>,
    p1: Seq<PortAccess>,
    p2: Seq<PortAccess>,
)
    requires
        io_written(m0, m1, w1, p1),
        io_written(m1, m2, w2, p2),
    ensures
        io_written(m0, m2, w1 + w2, p1 + p2),
{
    assert forall|a: u32| #[trigger] m2.peek_spec(a) == byte_after(m0, w1 + w2, a) by {
        lemma_byte_after_concat(m0, m1, w1, w2, a);
    }
    assert forall|a: u32| #[trigger] m2.stores(a) == m0.stores(a) by {
        assert(m2.stores(a) == m1.stores(a));
    }
    assert(m0.port_log()@ + p1 + p2 =~= m0.port_log()@ + (p1 + p2));
}

/// Port accesses between two steps that keep the memory and the ports.
pub proof fn lemma_io_same_memory<M: Machine>(m0: M, m1: M, m2: M, m3: M, ports: Seq<PortAccess>)
    requires
        same_memory(m1, m0),
        io_written(m1, m2, Seq::empty(), ports),
        same_memory(m3, m2),
    ensures
        io_written(m0, m3, Seq::empty(), ports),
{
    assert forall|a: u32| #[trigger] m3.peek_spec(a) == byte_after(m0, Seq::empty(), a) by {
        assert(m2.peek_spec(a) == byte_after(m1, Seq::empty(), a));
    }
    assert forall|a: u32| #[trigger] m3.stores(a) == m0.stores(a) by {
        assert(m2.stores(a) == m1.stores(a));
    }
}

/// Writes with no port access are io writes with no port access.
pub proof fn lemma_memory_io_written<M: Machine>(m0: M, m1: M, w: Seq<(u32, u8)>)
    requires
        memory_written(m0, m1, w),
    ensures
        io_written(m0, m1, w, Seq::empty()),
{
    assert(m0.port_log()@ + Seq::<PortAccess>::empty() =~= m0.port_log()@);
}

} // verus!

verus! {

/// A device left as it was has had no writes.
pub proof fn lemma_no_writes<M: Machine>(m: M)
    ensures
        memory_written(m, m, Seq::empty()),
{
}

/// A device with the same memory has had no writes.
pub proof fn lemma_same_memory_no_writes<M: Machine>(m0: M, m1: M)
    requires
        same_memory(m1, m0),
    ensures
        memory_written(m0, m1, Seq::empty()),
{
}


/// A write is read back at its address where the device stores it, and the
/// other addresses keep their content.
pub proof fn lemma_write_then_read<M: Machine>(m0: M, m1: M, address: u32, value: u8, other: u32)
    requires
        memory_written(m0, m1, seq![(address, value)]),
    ensures
        m0.stores(address) ==> m1.peek_spec(address) == value,
        other != address ==> m1.peek_spec(other) == m0.peek_spec(other),
{
    let w = seq![(address, value)];
    reveal_with_fuel(byte_after, 2);
    assert(w.drop_last() =~= Seq::<(u32, u8)>::empty());
    assert(m1.peek_spec(address) == byte_after(m0, w, address));
    assert(m1.peek_spec(other) == byte_after(m0, w, other));
}

} // verus!
