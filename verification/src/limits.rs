//! Resource limits of one execution context.

use vstd::prelude::*;

verus! {

/// Size of one page of sandbox memory, in bytes.
pub const PAGE_SIZE: u64 = 4096;

/// Ceiling of the heap that may be backed by real memory: 4 GiB.
pub const HEAP_MEMORY_SIZE: u64 = 0x1_0000_0000;

/// Address space reserved for the heap: 8 GiB, so that guard pages and a
/// shifted layout fit behind the heap.
pub const HEAP_ADDRESS_SPACE_SIZE: u64 = 0x2_0000_0000;

/// Size of the guest stack: 16 MiB.
pub const STACK_SIZE: u64 = 0x100_0000;

/// Largest globals footprint that a module may declare: 1 GiB.
pub const MAX_GLOBALS_FOOTPRINT: u64 = 0x4000_0000;

/// Upper bound, in bytes, of what an execution context takes besides the
/// heap's address space, the stack and the globals: the page of the instance,
/// the guard pages and the signal stack.
pub const REGION_OVERHEAD: u64 = 0x10_0000;

/// Why no limits can be built for a declared globals footprint.
#[derive(Clone, Copy, Debug, PartialEq, Eq, Structural)]
pub enum LimitError {
    /// The module declares no globals footprint at all.
    EmptyFootprint,
    /// The declared footprint is above `MAX_GLOBALS_FOOTPRINT`.
    FootprintTooLarge,
}

/// The fixed bounds under which one execution context runs, in bytes.
#[derive(Clone, Copy, Debug, PartialEq, Eq, Structural)]
pub struct ResourceLimits {
    pub heap_memory_size: u64,
    pub heap_address_space_size: u64,
    pub stack_size: u64,
    pub globals_size: u64,
}

/// Number of pages needed to hold `declared` bytes.
pub open spec fn pages_needed(declared: nat) -> nat {
    ((declared + PAGE_SIZE - 1) / (PAGE_SIZE as int)) as nat
}

/// Smallest multiple of the page size that holds `declared` bytes.
pub open spec fn page_rounded(declared: nat) -> nat {
    pages_needed(declared) * (PAGE_SIZE as nat)
}

/// The limits that belong to a declared globals footprint.
pub open spec fn limits_for(declared: nat) -> ResourceLimits {
    ResourceLimits {
        heap_memory_size: HEAP_MEMORY_SIZE,
        heap_address_space_size: HEAP_ADDRESS_SPACE_SIZE,
        stack_size: STACK_SIZE,
        globals_size: page_rounded(declared) as u64,
    }
}

impl ResourceLimits {
    /// Every region is a whole number of pages, the stack and the globals
    /// region are not empty, and the reserved address space is strictly larger
    /// than the heap that it holds.
    pub open spec fn well_formed(self) -> bool {
        &&& self.heap_memory_size % PAGE_SIZE == 0
        &&& self.heap_address_space_size % PAGE_SIZE == 0
        &&& self.stack_size % PAGE_SIZE == 0
        &&& self.globals_size % PAGE_SIZE == 0
        &&& self.heap_memory_size < self.heap_address_space_size
        &&& 0 < self.stack_size
        &&& 0 < self.globals_size
    }

    /// Bytes of address space that the regions take together.
    pub open spec fn total(self) -> nat {
        (self.heap_address_space_size + self.stack_size + self.globals_size) as nat
    }
}

/// The limits can be met on this machine: the heap and the sum of the
/// regions with their overhead can be addressed.
pub open spec fn limits_fit(limits: ResourceLimits) -> bool {
    limits.heap_memory_size <= usize::MAX && limits.total() + REGION_OVERHEAD <= usize::MAX
}

/// Tells whether the limits can be met on this machine.
pub fn check_limits_fit(limits: &ResourceLimits) -> (fit: bool)
    ensures
        fit == limits_fit(*limits),
{
    let max = usize::MAX as u64;
    if limits.heap_memory_size > max {
        return false;
    }
    let with_stack = match limits.heap_address_space_size.checked_add(limits.stack_size) {
        Some(sum) => sum,
        None => {
            return false;
        },
    };
    let with_globals = match with_stack.checked_add(limits.globals_size) {
        Some(sum) => sum,
        None => {
            return false;
        },
    };
    match with_globals.checked_add(REGION_OVERHEAD) {
        Some(sum) => sum <= max,
        None => false,
    }
}

/// Rounds a declared globals footprint up to whole pages.
pub fn globals_region_size(declared: u64) -> (size: Result<u64, LimitError>)
    ensures
        declared == 0 ==> size == Err::<u64, LimitError>(LimitError::EmptyFootprint),
        declared > MAX_GLOBALS_FOOTPRINT ==> size == Err::<u64, LimitError>(
            LimitError::FootprintTooLarge,
        ),
        0 < declared <= MAX_GLOBALS_FOOTPRINT ==> size == Ok::<u64, LimitError>(
            page_rounded(declared as nat) as u64,
        ),
{
    if declared == 0 {
        Err(LimitError::EmptyFootprint)
    } else if declared > MAX_GLOBALS_FOOTPRINT {
        Err(LimitError::FootprintTooLarge)
    } else {
        Ok(((declared + (PAGE_SIZE - 1)) / PAGE_SIZE) * PAGE_SIZE)
    }
}

/// Builds the limits of an execution context from the globals footprint that
/// its module declares.
pub fn compute_limits(declared: u64) -> (limits: Result<ResourceLimits, LimitError>)
    ensures
        declared == 0 ==> limits == Err::<ResourceLimits, LimitError>(LimitError::EmptyFootprint),
        declared > MAX_GLOBALS_FOOTPRINT ==> limits == Err::<ResourceLimits, LimitError>(
            LimitError::FootprintTooLarge,
        ),
        0 < declared <= MAX_GLOBALS_FOOTPRINT ==> limits == Ok::<ResourceLimits, LimitError>(
            limits_for(declared as nat),
        ),
        limits matches Ok(l) ==> l.well_formed(),
{
    match globals_region_size(declared) {
        Err(e) => Err(e),
        Ok(globals_size) => {
            proof {
                lemma_page_rounded_bounds(declared as nat);
            }
            Ok(
                ResourceLimits {
                    heap_memory_size: HEAP_MEMORY_SIZE,
                    heap_address_space_size: HEAP_ADDRESS_SPACE_SIZE,
                    stack_size: STACK_SIZE,
                    globals_size,
                },
            )
        },
    }
}

/// The rounded size is a multiple of the page size, is not below the declared
/// footprint and exceeds it by less than one page.
pub proof fn lemma_page_rounded_bounds(declared: nat)
    ensures
        page_rounded(declared) % (PAGE_SIZE as nat) == 0,
        declared <= page_rounded(declared) < declared + PAGE_SIZE,
        declared > 0 ==> page_rounded(declared) > 0,
{
    let p = PAGE_SIZE as int;
    let q = (declared + p - 1) / p;
    assert(q * p % p == 0) by (nonlinear_arith)
        requires
            p > 0,
    ;
    assert(q * p <= declared + p - 1 < q * p + p) by (nonlinear_arith)
        requires
            p > 0,
            q == (declared + p - 1) / p,
    ;
}

/// No multiple of the page size that holds the declared footprint is smaller
/// than the rounded size.
pub proof fn lemma_page_rounded_least(declared: nat, m: nat)
    requires
        m % (PAGE_SIZE as nat) == 0,
        declared <= m,
    ensures
        page_rounded(declared) <= m,
{
    let p = PAGE_SIZE as int;
    let q = (declared + p - 1) / p;
    let k = m as int / p;
    assert(q * p <= declared + p - 1) by (nonlinear_arith)
        requires
            p > 0,
            q == (declared + p - 1) / p,
    ;
    assert(m == k * p) by (nonlinear_arith)
        requires
            p > 0,
            m as int % p == 0,
            k == m as int / p,
    ;
    assert(q * p <= k * p) by (nonlinear_arith)
        requires
            p > 0,
            q * p <= declared + p - 1,
            declared <= k * p,
    ;
}

} // verus!
