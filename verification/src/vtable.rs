//! Vector table construction.
//!
//! The hardware reads a fixed-address array of handler entries indexed by
//! exception/interrupt number: index 0 is the initial-stack-pointer slot
//! (never a handler here), index 1 the reset handler, indices 2 to 15 the
//! fixed core exceptions, and indices 16 and up the device interrupts.
//! [`build_vector_table`] turns a declarative list of bindings into that
//! array, filling every unbound slot with the reserved zero entry and
//! rejecting a list in which two bindings target the same index or an
//! interrupt number falls outside the table.

use vstd::prelude::*;

verus! {

/// Reserved pointer in a vector table: the only allowed zero value.
#[derive(Clone, Copy, PartialEq, Eq, Structural, Debug)]
pub enum Reserved {
    /// The zero entry.
    Vector,
}

/// A predefined core exception, at a hardware-defined table index.
#[derive(Clone, Copy, PartialEq, Eq, Structural, Debug)]
pub enum Exception {
    /// Non maskable interrupt.
    Nmi,
    /// All classes of fault.
    HardFault,
    /// Memory management.
    MemManage,
    /// Pre-fetch fault, memory access fault.
    BusFault,
    /// Undefined instruction or illegal state.
    UsageFault,
    /// System service call via SWI instruction.
    SvCall,
    /// Monitor.
    Debug,
    /// Pendable request for system service.
    PendSv,
    /// System tick timer.
    SysTick,
}

/// One declarative entry: a named handler bound either to a predefined core
/// exception or to a device interrupt number. The `u32` is the handler
/// identity that the table entry will carry.
#[derive(Clone, Copy, PartialEq, Eq, Structural, Debug)]
pub enum Binding {
    /// A predefined exception and its handler.
    Exception(Exception, u32),
    /// A device interrupt number and its handler.
    Irq(u16, u32),
}

/// One slot of the finished table: a bound handler or the reserved zero.
#[derive(Clone, Copy, PartialEq, Eq, Structural, Debug)]
pub enum VectorEntry {
    /// An unbound slot.
    Reserved(Reserved),
    /// A bound handler, by its identity.
    Handler(u32),
}

/// A fault in the declarative binding list, fatal to construction.
#[derive(Clone, Copy, PartialEq, Eq, Structural, Debug)]
pub enum VtableError {
    /// Two bindings target this table index.
    Collision { index: usize },
    /// A binding targets this index, outside the table.
    OutOfRange { index: usize },
}

/// Table index that device interrupt number 0 maps to.
pub const IRQ_BASE: usize = 16;

/// The hardware-defined table index of each predefined exception.
pub open spec fn spec_exception_index(e: Exception) -> int {
    match e {
        Exception::Nmi => 2,
        Exception::HardFault => 3,
        Exception::MemManage => 4,
        Exception::BusFault => 5,
        Exception::UsageFault => 6,
        Exception::SvCall => 11,
        Exception::Debug => 12,
        Exception::PendSv => 14,
        Exception::SysTick => 15,
    }
}

/// The table index a binding targets.
pub open spec fn spec_binding_index(b: Binding) -> int {
    match b {
        Binding::Exception(e, _) => spec_exception_index(e),
        Binding::Irq(n, _) => IRQ_BASE + n,
    }
}

/// The handler identity a binding carries.
pub open spec fn spec_binding_handler(b: Binding) -> u32 {
    match b {
        Binding::Exception(_, handler) => handler,
        Binding::Irq(_, handler) => handler,
    }
}

/// The reserved zero entry that fills every unbound slot.
pub open spec fn spec_reserved_entry() -> VectorEntry {
    VectorEntry::Reserved(Reserved::Vector)
}

/// No fault among the first `k` bindings: every index within the table and
/// no two bindings targeting the same index.
pub open spec fn bindings_ok_to(bs: Seq<Binding>, count: int, k: int) -> bool {
    &&& forall|i: int| 0 <= i < k ==> spec_binding_index(bs[i]) < count
    &&& forall|i: int, j: int|
        0 <= i < j < k ==> spec_binding_index(bs[i]) != spec_binding_index(bs[j])
}

/// A binding list is acceptable for a table of `count` slots.
pub open spec fn bindings_ok(bs: Seq<Binding>, count: int) -> bool {
    bindings_ok_to(bs, count, bs.len() as int)
}

/// No two bindings target the same table index.
pub open spec fn bindings_distinct(bs: Seq<Binding>) -> bool {
    forall|i: int, j: int|
        0 <= i < j < bs.len() ==> spec_binding_index(bs[i]) != spec_binding_index(bs[j])
}

/// Some binding in `bs` targets table index `pos`.
pub open spec fn position_bound(bs: Seq<Binding>, pos: int) -> bool {
    exists|k: int| 0 <= k < bs.len() && spec_binding_index(bs[k]) == pos
}

/// The first fault at or after position `k` of the binding list, if any:
/// an index outside the table, or a collision with an earlier binding.
pub open spec fn spec_fault_from(bs: Seq<Binding>, count: int, k: int) -> Option<VtableError>
    decreases bs.len() - k,
{
    if k < 0 || k >= bs.len() {
        None
    } else if spec_binding_index(bs[k]) >= count {
        Some(VtableError::OutOfRange { index: spec_binding_index(bs[k]) as usize })
    } else if exists|j: int| 0 <= j < k && spec_binding_index(bs[j]) == spec_binding_index(bs[k]) {
        Some(VtableError::Collision { index: spec_binding_index(bs[k]) as usize })
    } else {
        spec_fault_from(bs, count, k + 1)
    }
}

/// The first fault of the whole binding list, if any.
pub open spec fn spec_fault(bs: Seq<Binding>, count: int) -> Option<VtableError> {
    spec_fault_from(bs, count, 0)
}

/// Every binding index is at least 2: index 0 (initial stack pointer) and
/// index 1 (reset) can never be targeted by a binding.
pub proof fn lemma_binding_index_low(b: Binding)
    ensures
        2 <= spec_binding_index(b) <= IRQ_BASE + u16::MAX,
{
}

/// The table index a binding targets.
pub fn binding_index(b: &Binding) -> (index: usize)
    ensures
        index == spec_binding_index(*b),
{
    match b {
        Binding::Exception(e, _) => match e {
            Exception::Nmi => 2,
            Exception::HardFault => 3,
            Exception::MemManage => 4,
            Exception::BusFault => 5,
            Exception::UsageFault => 6,
            Exception::SvCall => 11,
            Exception::Debug => 12,
            Exception::PendSv => 14,
            Exception::SysTick => 15,
        },
        Binding::Irq(n, _) => IRQ_BASE + (*n as usize),
    }
}

/// The handler identity a binding carries.
pub fn binding_handler(b: &Binding) -> (handler: u32)
    ensures
        handler == spec_binding_handler(*b),
{
    match b {
        Binding::Exception(_, handler) => *handler,
        Binding::Irq(_, handler) => *handler,
    }
}

/// Builds the vector table for a hardware vector count of `count` slots:
/// index 0 stays reserved, index 1 holds the reset handler, each binding's
/// handler lands at its index, and every other slot is the reserved zero.
/// Construction fails on the first binding whose index is outside the table
/// or already taken; success is owed exactly when the binding list is
/// collision-free and in range.
pub fn build_vector_table(reset: u32, bindings: &Vec<Binding>, count: usize) -> (r: Result<
    Vec<VectorEntry>,
    VtableError,
>)
    requires
        16 <= count,
    ensures
        r is Ok <==> bindings_ok(bindings@, count as int),
        (match r {
            Ok(table) => {
                &&& spec_fault(bindings@, count as int) is None
                &&& table@.len() == count
                &&& table@[0] == spec_reserved_entry()
                &&& table@[1] == VectorEntry::Handler(reset)
                &&& forall|k: int|
                    0 <= k < bindings@.len() ==> table@[spec_binding_index(bindings@[k])]
                        == VectorEntry::Handler(spec_binding_handler(bindings@[k]))
                &&& forall|pos: int|
                    0 <= pos < count && pos != 1 && !position_bound(bindings@, pos)
                        ==> table@[pos] == spec_reserved_entry()
            },
            Err(e) => Some(e) == spec_fault(bindings@, count as int),
        }),
{
    let mut table: Vec<VectorEntry> = Vec::new();
    let mut fill: usize = 0;
    while fill < count
        invariant
            fill <= count,
            table@.len() == fill,
            forall|pos: int| 0 <= pos < fill ==> table@[pos] == spec_reserved_entry(),
        decreases count - fill,
    {
        table.push(VectorEntry::Reserved(Reserved::Vector));
        fill = fill + 1;
    }
    table[1] = VectorEntry::Handler(reset);
    let ghost bs: Seq<Binding> = bindings@;
    let mut k: usize = 0;
    while k < bindings.len()
        invariant
            bs == bindings@,
            16 <= count,
            k <= bs.len(),
            table@.len() == count,
            bindings_ok_to(bs, count as int, k as int),
            spec_fault_from(bs, count as int, 0) == spec_fault_from(bs, count as int, k as int),
            table@[0] == spec_reserved_entry(),
            table@[1] == VectorEntry::Handler(reset),
            forall|m: int|
                0 <= m < k ==> table@[spec_binding_index(bs[m])]
                    == VectorEntry::Handler(spec_binding_handler(bs[m])),
            forall|pos: int|
                0 <= pos < count && pos != 1 && !(exists|m: int|
                    0 <= m < k && spec_binding_index(bs[m]) == pos) ==> table@[pos]
                    == spec_reserved_entry(),
        decreases bs.len() - k,
    {
        let b = bindings[k];
        let index = binding_index(&b);
        proof {
            lemma_binding_index_low(b);
        }
        if index >= count {
            proof {
                assert(spec_fault_from(bs, count as int, k as int)
                    == Some(VtableError::OutOfRange { index }));
                assert(!bindings_ok(bs, count as int));
            }
            return Err(VtableError::OutOfRange { index });
        }
        let occupied = match table[index] {
            VectorEntry::Handler(_) => true,
            VectorEntry::Reserved(_) => false,
        };
        proof {
            if occupied {
                assert(table@[index as int] != spec_reserved_entry());
                assert(exists|m: int|
                    0 <= m < k && spec_binding_index(bs[m]) == index as int);
            } else {
                if exists|m: int| 0 <= m < k && spec_binding_index(bs[m]) == index as int {
                    let m = choose|m: int|
                        0 <= m < k && spec_binding_index(bs[m]) == index as int;
                    assert(table@[spec_binding_index(bs[m])]
                        == VectorEntry::Handler(spec_binding_handler(bs[m])));
                    assert(false);
                }
            }
        }
        if occupied {
            proof {
                assert(spec_fault_from(bs, count as int, k as int)
                    == Some(VtableError::Collision { index }));
                let j = choose|j: int|
                    0 <= j < k && spec_binding_index(bs[j]) == spec_binding_index(bs[k as int]);
                assert(!bindings_ok(bs, count as int));
            }
            return Err(VtableError::Collision { index });
        }
        table[index] = VectorEntry::Handler(binding_handler(&b));
        proof {
            assert(spec_fault_from(bs, count as int, k as int)
                == spec_fault_from(bs, count as int, k + 1));
        }
        k = k + 1;
    }
    Ok(table)
}

} // verus!
