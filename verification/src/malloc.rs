//! Blocks from a COM `IMalloc` allocator held by JavaScript: each block is
//! tied to the allocator that made it, freed at most once, and moved or
//! freed by `Realloc` as the COM rules say.
use vstd::prelude::*;
use crate::js_integer::{JsBigInt, BigIntModel, bigint_u64, spec_fits_u64};

verus! {

/// Why an allocation operation was refused.
#[derive(Clone, Copy, Debug, PartialEq, Eq, Structural)]
pub enum MallocError {
    /// The block was freed or handed back.
    Released,
    /// The allocator given is not the one that made the block.
    DifferentAllocator,
    /// The reallocation size is not an unsigned 64-bit integer.
    InvalidSize,
    /// The call did not return an unowned direct pointer.
    NotAPointerReturn,
}

/// What an allocation holds: the COM identity of its allocator (gone once
/// released) and the block's address (0 once released).
pub struct AllocationModel {
    pub allocator: Option<usize>,
    pub pointer: usize,
}

/// A block owned by JavaScript.
#[derive(Debug)]
pub struct DynComAllocation {
    allocator: Option<usize>,
    pointer: usize,
}

impl View for DynComAllocation {
    type V = AllocationModel;

    closed spec fn view(&self) -> AllocationModel {
        AllocationModel { allocator: self.allocator, pointer: self.pointer }
    }
}

/// The check that `actual` is the live block's own allocator.
pub open spec fn spec_validate_allocator(m: AllocationModel, actual: usize) -> Result<(), MallocError> {
    match m.allocator {
        None => Err(MallocError::Released),
        Some(a) => if a != actual {
            Err(MallocError::DifferentAllocator)
        } else if m.pointer == 0 {
            Err(MallocError::Released)
        } else {
            Ok(())
        },
    }
}

/// The model of a released block.
pub open spec fn spec_released_model() -> AllocationModel {
    AllocationModel { allocator: None, pointer: 0 }
}

impl DynComAllocation {
    /// A block returned by `allocator` at a non-null `pointer`.
    pub fn new(allocator: usize, pointer: usize) -> (r: DynComAllocation)
        requires
            pointer != 0,
        ensures
            r@ == (AllocationModel { allocator: Some(allocator), pointer }),
    {
        DynComAllocation { allocator: Some(allocator), pointer }
    }

    /// Whether the block was freed or handed back.
    pub fn released(&self) -> (r: bool)
        ensures
            r == (self@.pointer == 0),
    {
        self.pointer == 0
    }

    /// Checks that `actual` (an allocator's COM identity) made this live
    /// block.
    pub fn validate_allocator(&self, actual: usize) -> (r: Result<(), MallocError>)
        ensures
            r == spec_validate_allocator(self@, actual),
    {
        match self.allocator {
            None => Err(MallocError::Released),
            Some(a) => if a != actual {
                Err(MallocError::DifferentAllocator)
            } else if self.pointer == 0 {
                Err(MallocError::Released)
            } else {
                Ok(())
            },
        }
    }

    /// The block's address, lent for a call on its own allocator.
    pub fn borrowed_pointer(&self, actual: usize) -> (r: Result<usize, MallocError>)
        ensures
            spec_validate_allocator(self@, actual) matches Err(e) ==> r == Err::<usize, MallocError>(e),
            spec_validate_allocator(self@, actual) is Ok ==> r == Ok::<usize, MallocError>(self@.pointer),
    {
        match self.validate_allocator(actual) {
            Err(e) => Err(e),
            Ok(()) => Ok(self.pointer),
        }
    }

    /// The block's address, for inspection by any caller on its thread.
    pub fn inspection_pointer(&self) -> (r: Result<usize, MallocError>)
        ensures
            self@.pointer == 0 ==> r == Err::<usize, MallocError>(MallocError::Released),
            self@.pointer != 0 ==> r == Ok::<usize, MallocError>(self@.pointer),
    {
        if self.pointer == 0 {
            Err(MallocError::Released)
        } else {
            Ok(self.pointer)
        }
    }

    /// Hands the block back to its allocator's caller: the allocation no
    /// longer owns it.
    pub fn take_pointer(&mut self, actual: usize) -> (r: Result<usize, MallocError>)
        ensures
            spec_validate_allocator(old(self)@, actual) matches Err(e) ==> {
                &&& r == Err::<usize, MallocError>(e)
                &&& final(self)@ == old(self)@
            },
            spec_validate_allocator(old(self)@, actual) is Ok ==> {
                &&& r == Ok::<usize, MallocError>(old(self)@.pointer)
                &&& final(self)@ == spec_released_model()
            },
    {
        match self.validate_allocator(actual) {
            Err(e) => Err(e),
            Ok(()) => {
                let pointer = self.pointer;
                self.pointer = 0;
                self.allocator = None;
                Ok(pointer)
            },
        }
    }

    /// Releases the block: returns the allocator and address to free, if
    /// it still owns one.
    pub fn release(&mut self) -> (r: Option<(usize, usize)>)
        ensures
            old(self)@.pointer == 0 ==> r is None && final(self)@ == old(self)@,
            old(self)@.pointer != 0 ==> final(self)@ == spec_released_model() && r == (match old(self)@.allocator {
                Some(a) => Some((a, old(self)@.pointer)),
                None => None,
            }),
    {
        if self.pointer != 0 {
            let pointer = self.pointer;
            let freed = match self.allocator {
                Some(a) => Some((a, pointer)),
                None => None,
            };
            self.pointer = 0;
            self.allocator = None;
            freed
        } else {
            None
        }
    }

    /// Finalization: on a thread where the allocator may be called the
    /// block is released; elsewhere it is forgotten without a call.
    pub fn finalize(&mut self, may_call_allocator: bool) -> (r: Option<(usize, usize)>)
        ensures
            !may_call_allocator ==> r is None && final(self)@.pointer == 0 && final(self)@.allocator is None,
            may_call_allocator && old(self)@.pointer == 0 ==> r is None,
            may_call_allocator && old(self)@.pointer != 0 ==> final(self)@ == spec_released_model()
                && r == (match old(self)@.allocator {
                    Some(a) => Some((a, old(self)@.pointer)),
                    None => None,
                }),
    {
        if !may_call_allocator {
            self.pointer = 0;
            self.allocator = None;
            return None;
        }
        self.release()
    }
}

/// What the reallocation of a fresh block (none given) returns.
pub open spec fn spec_fresh_reallocation(allocator: usize, size: BigIntModel, returned: Result<usize, MallocError>)
    -> Result<Option<AllocationModel>, MallocError> {
    match returned {
        Err(e) => Err(e),
        Ok(p) => if p != 0 {
            Ok(Some(AllocationModel { allocator: Some(allocator), pointer: p }))
        } else if !spec_fits_u64(size) {
            Err(MallocError::InvalidSize)
        } else {
            Ok(None)
        },
    }
}

/// The model of a reallocation result.
pub open spec fn spec_result_model(r: Result<Option<DynComAllocation>, MallocError>) -> Result<Option<AllocationModel>, MallocError> {
    match r {
        Err(e) => Err(e),
        Ok(None) => Ok(None),
        Ok(Some(a)) => Ok(Some(a@)),
    }
}

/// Finishes `IMalloc::Realloc` without a previous block on the allocator
/// with identity `allocator`: a non-null result is a new allocation; a null
/// result is none, provided the size was an unsigned 64-bit integer.
/// `returned` is the call's pointer result, or why it was not one.
pub fn finish_malloc_reallocation(allocator: usize, size: &JsBigInt, returned: Result<usize, MallocError>)
    -> (r: Result<Option<DynComAllocation>, MallocError>)
    ensures
        spec_result_model(r) == spec_fresh_reallocation(allocator, size@, returned),
{
    let pointer = match returned {
        Err(e) => return Err(e),
        Ok(p) => p,
    };
    if pointer != 0 {
        return Ok(Some(DynComAllocation::new(allocator, pointer)));
    }
    match bigint_u64(size) {
        Err(_) => Err(MallocError::InvalidSize),
        Ok(_) => Ok(None),
    }
}

impl DynComAllocation {
    /// Finishes `IMalloc::Realloc` of this block on the allocator with
    /// identity `allocator`: a non-null result moves the block to a new
    /// allocation; a null result for size zero frees it; a null result for
    /// another size leaves it as it was.
    pub fn finish_reallocation(&mut self, allocator: usize, size: &JsBigInt, returned: Result<usize, MallocError>)
        -> (r: Result<Option<DynComAllocation>, MallocError>)
        ensures
            spec_validate_allocator(old(self)@, allocator) matches Err(e) ==> {
                &&& r is Err && r->Err_0 == e
                &&& final(self)@ == old(self)@
            },
            spec_validate_allocator(old(self)@, allocator) is Ok ==> {
                &&& spec_result_model(r) == spec_fresh_reallocation(allocator, size@, returned)
                &&& final(self)@ == if returned matches Ok(p) && (p != 0
                    || (spec_fits_u64(size@) && size@.words[0] == 0)) {
                    spec_released_model()
                } else {
                    old(self)@
                }
            },
    {
        match self.validate_allocator(allocator) {
            Err(e) => return Err(e),
            Ok(()) => {},
        }
        let pointer = match returned {
            Err(e) => return Err(e),
            Ok(p) => p,
        };
        if pointer != 0 {
            let _ = self.take_pointer(allocator);
            return Ok(Some(DynComAllocation::new(allocator, pointer)));
        }
        let requested = match bigint_u64(size) {
            Err(_) => return Err(MallocError::InvalidSize),
            Ok(n) => n,
        };
        if requested == 0 {
            let _ = self.take_pointer(allocator);
        }
        Ok(None)
    }
}

/// A block is freed at most once: after a release, releasing again frees
/// nothing and every use is refused.
pub proof fn lemma_release_once(actual: usize)
    ensures
        spec_validate_allocator(spec_released_model(), actual) == Err::<(), MallocError>(MallocError::Released),
{
}

/// A block is usable only through the allocator that made it.
pub proof fn lemma_allocator_bound(m: AllocationModel, actual: usize)
    requires
        spec_validate_allocator(m, actual) is Ok,
    ensures
        m.allocator == Some(actual),
        m.pointer != 0,
{
}

} // verus!
