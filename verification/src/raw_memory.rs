//! Bounded raw memory views, raw pointer states and the pointer-width
//! integer conversions of the raw COM surface.
use vstd::prelude::*;
use vstd::arithmetic::power2::pow2;

verus! {

/// Why a raw memory operation was refused.
#[derive(Clone, Copy, Debug, PartialEq, Eq, Structural)]
pub enum RawMemoryError {
    ZeroSize,
    InvalidAlignment,
    LayoutTooLarge,
    AllocationAddressOverflow,
    NullNonEmptyView,
    MisalignedAddress,
    AddressOverflow,
    OffsetOverflow,
    RangeExceeds { offset: usize, end: usize, size: usize },
    Released,
    SlotTooSmall,
    SlotMisaligned,
}

pub open spec fn spec_is_power_of_two(n: usize) -> bool {
    exists|k: nat| pow2(k) == n
}

/// Calls `usize::is_power_of_two`: whether `n` is `2^k` for some `k`.
#[verifier::external_body]
fn usize_is_power_of_two(n: usize) -> (r: bool)
    ensures
        r == spec_is_power_of_two(n),
{
    n.is_power_of_two()
}

/// `size` rounded up to a multiple of `align`.
pub open spec fn rounded_up(size: usize, align: usize) -> int {
    if size % align == 0 { size as int } else { size + (align - size % align) }
}

/// Calls `Layout::from_size_align`: a layout exists for a power-of-two
/// alignment when the size rounded up to it does not exceed `isize::MAX`.
#[verifier::external_body]
fn layout_fits(size: usize, align: usize) -> (r: bool)
    requires
        spec_is_power_of_two(align),
    ensures
        r == (rounded_up(size, align) <= isize::MAX),
{
    std::alloc::Layout::from_size_align(size, align).is_ok()
}

/// What a raw memory view holds: its bounds, whether it was allocated here
/// or views caller memory, whether it was released, how many native calls
/// still hold it, and whether its block was freed.
pub struct RawMemoryModel {
    pub address: usize,
    pub size: usize,
    pub alignment: usize,
    pub external: bool,
    pub released: bool,
    pub leases: u64,
    pub freed: bool,
}

/// A bounded view of raw memory, owned or external.
#[derive(Debug)]
pub struct RawAllocation {
    address: usize,
    size: usize,
    alignment: usize,
    external: bool,
    released: bool,
    leases: u64,
    freed: bool,
}

impl RawAllocation {
    /// The view never reaches past the end of the address space.
    #[verifier::type_invariant]
    spec fn bounded(self) -> bool {
        self.address + self.size <= usize::MAX
    }
}

impl View for RawAllocation {
    type V = RawMemoryModel;

    closed spec fn view(&self) -> RawMemoryModel {
        RawMemoryModel {
            address: self.address,
            size: self.size,
            alignment: self.alignment,
            external: self.external,
            released: self.released,
            leases: self.leases,
            freed: self.freed,
        }
    }
}

/// Releasing: the view and whether its block is freed now.
pub open spec fn spec_release(m: RawMemoryModel) -> (RawMemoryModel, bool) {
    let free = m.leases == 0 && !m.external && !m.freed;
    (RawMemoryModel { released: true, freed: m.freed || free, ..m }, free)
}

/// Taking a lease for a native call: refused once released.
pub open spec fn spec_acquire_lease(m: RawMemoryModel) -> (RawMemoryModel, Result<(), RawMemoryError>) {
    if m.released {
        (m, Err(RawMemoryError::Released))
    } else {
        (RawMemoryModel { leases: (m.leases + 1) as u64, ..m }, Ok(()))
    }
}

/// Giving a lease back: the view and whether its block is freed now.
pub open spec fn spec_end_lease(m: RawMemoryModel) -> (RawMemoryModel, bool) {
    let leases = (m.leases - 1) as u64;
    let free = m.released && leases == 0 && !m.external && !m.freed;
    (RawMemoryModel { leases, freed: m.freed || free, ..m }, free)
}

/// The checks made before allocating.
pub open spec fn spec_allocation_request(size: usize, alignment: usize) -> Result<(), RawMemoryError> {
    if size == 0 {
        Err(RawMemoryError::ZeroSize)
    } else if alignment == 0 || !spec_is_power_of_two(alignment) {
        Err(RawMemoryError::InvalidAlignment)
    } else if rounded_up(size, alignment) > isize::MAX {
        Err(RawMemoryError::LayoutTooLarge)
    } else {
        Ok(())
    }
}

/// The checks on an external view of caller memory.
pub open spec fn spec_external_view(address: usize, size: usize, alignment: usize) -> Result<RawMemoryModel, RawMemoryError> {
    if alignment == 0 || !spec_is_power_of_two(alignment) {
        Err(RawMemoryError::InvalidAlignment)
    } else if rounded_up(size, alignment) > isize::MAX {
        Err(RawMemoryError::LayoutTooLarge)
    } else if address == 0 && size != 0 {
        Err(RawMemoryError::NullNonEmptyView)
    } else if address != 0 && address % alignment != 0 {
        Err(RawMemoryError::MisalignedAddress)
    } else if address + size > usize::MAX {
        Err(RawMemoryError::AddressOverflow)
    } else {
        Ok(RawMemoryModel { address, size, alignment, external: true, released: false, leases: 0, freed: false })
    }
}

/// The range check of `width` bytes at `offset`.
pub open spec fn spec_checked_offset(m: RawMemoryModel, offset: usize, width: usize) -> Result<(), RawMemoryError> {
    if offset + width > usize::MAX {
        Err(RawMemoryError::OffsetOverflow)
    } else if offset + width > m.size {
        Err(RawMemoryError::RangeExceeds { offset, end: (offset + width) as usize, size: m.size })
    } else {
        Ok(())
    }
}

/// The address of the live byte range `[offset, offset + width)`.
pub open spec fn spec_range_address(m: RawMemoryModel, offset: usize, width: usize) -> Result<usize, RawMemoryError> {
    match spec_checked_offset(m, offset, width) {
        Err(e) => Err(e),
        Ok(()) => if m.released { Err(RawMemoryError::Released) } else { Ok((m.address + offset) as usize) },
    }
}

/// The address of `offset`, in bounds (one past the end included) of a live view.
pub open spec fn spec_pointer_address(m: RawMemoryModel, offset: usize) -> Result<usize, RawMemoryError> {
    match spec_checked_offset(m, offset, 0) {
        Err(e) => Err(e),
        Ok(()) => if m.released { Err(RawMemoryError::Released) } else { Ok((m.address + offset) as usize) },
    }
}

/// Checks a request to allocate `size` bytes aligned to `alignment`.
pub fn validate_allocation_request(size: usize, alignment: usize) -> (r: Result<(), RawMemoryError>)
    ensures
        r == spec_allocation_request(size, alignment),
{
    if size == 0 {
        return Err(RawMemoryError::ZeroSize);
    }
    if alignment == 0 || !usize_is_power_of_two(alignment) {
        return Err(RawMemoryError::InvalidAlignment);
    }
    if !layout_fits(size, alignment) {
        return Err(RawMemoryError::LayoutTooLarge);
    }
    Ok(())
}

impl RawAllocation {
    /// Records a zeroed allocation made at `address` for a request that
    /// passed `validate_allocation_request`; refused when the allocation's
    /// end address would overflow.
    pub fn allocated(address: usize, size: usize, alignment: usize) -> (r: Result<RawAllocation, RawMemoryError>)
        ensures
            address + size > usize::MAX ==> r == Err::<RawAllocation, RawMemoryError>(RawMemoryError::AllocationAddressOverflow),
            address + size <= usize::MAX ==> (r matches Ok(a) && a@ == (RawMemoryModel {
                address, size, alignment, external: false, released: false, leases: 0, freed: false,
            })),
    {
        match address.checked_add(size) {
            None => Err(RawMemoryError::AllocationAddressOverflow),
            Some(_) => Ok(RawAllocation { address, size, alignment, external: false, released: false, leases: 0, freed: false }),
        }
    }

    /// A bounded view of caller memory.
    pub fn external(address: usize, size: usize, alignment: usize) -> (r: Result<RawAllocation, RawMemoryError>)
        ensures
            r is Ok <==> spec_external_view(address, size, alignment) is Ok,
            r matches Ok(a) ==> spec_external_view(address, size, alignment) == Ok::<RawMemoryModel, RawMemoryError>(a@),
            r matches Err(e) ==> spec_external_view(address, size, alignment) == Err::<RawMemoryModel, RawMemoryError>(e),
    {
        if alignment == 0 || !usize_is_power_of_two(alignment) {
            return Err(RawMemoryError::InvalidAlignment);
        }
        if !layout_fits(size, alignment) {
            return Err(RawMemoryError::LayoutTooLarge);
        }
        if address == 0 && size != 0 {
            return Err(RawMemoryError::NullNonEmptyView);
        }
        if address != 0 && address % alignment != 0 {
            return Err(RawMemoryError::MisalignedAddress);
        }
        match address.checked_add(size) {
            None => Err(RawMemoryError::AddressOverflow),
            Some(_) => Ok(RawAllocation { address, size, alignment, external: true, released: false, leases: 0, freed: false }),
        }
    }

    pub fn size(&self) -> (r: usize)
        ensures
            r == self@.size,
    {
        self.size
    }

    pub fn alignment(&self) -> (r: usize)
        ensures
            r == self@.alignment,
    {
        self.alignment
    }

    /// Whether this view was released.
    pub fn released(&self) -> (r: bool)
        ensures
            r == self@.released,
    {
        self.released
    }

    /// Releases the view: later accesses fail. Returns whether the block
    /// allocated here is to be freed now, which is when no native call
    /// holds it and it was not freed before.
    pub fn release(&mut self) -> (r: bool)
        ensures
            (final(self)@, r) == spec_release(old(self)@),
    {
        proof {
            use_type_invariant(&*self);
        }
        self.released = true;
        if self.leases == 0 && !self.external && !self.freed {
            self.freed = true;
            true
        } else {
            false
        }
    }

    /// A native call takes a lease on a live view, which keeps its block
    /// allocated until the call gives the lease back.
    pub fn acquire_invocation_lease(&mut self) -> (r: Result<(), RawMemoryError>)
        requires
            old(self)@.leases < u64::MAX,
        ensures
            (final(self)@, r) == spec_acquire_lease(old(self)@),
    {
        proof {
            use_type_invariant(&*self);
        }
        if self.released {
            return Err(RawMemoryError::Released);
        }
        self.leases = self.leases + 1;
        Ok(())
    }

    /// A native call gives its lease back. Returns whether the block
    /// allocated here is to be freed now: the view was released meanwhile
    /// and this was the last lease.
    pub fn end_invocation_lease(&mut self) -> (r: bool)
        requires
            old(self)@.leases > 0,
        ensures
            (final(self)@, r) == spec_end_lease(old(self)@),
    {
        proof {
            use_type_invariant(&*self);
        }
        self.leases = self.leases - 1;
        if self.released && self.leases == 0 && !self.external && !self.freed {
            self.freed = true;
            true
        } else {
            false
        }
    }

    /// Refuses a released view.
    pub fn validate_live(&self) -> (r: Result<(), RawMemoryError>)
        ensures
            r is Ok <==> !self@.released,
            r is Err ==> r == Err::<(), RawMemoryError>(RawMemoryError::Released),
    {
        if self.released {
            Err(RawMemoryError::Released)
        } else {
            Ok(())
        }
    }

    /// Checks that `width` bytes at `offset` lie inside the view.
    pub fn checked_offset(&self, offset: usize, width: usize) -> (r: Result<(), RawMemoryError>)
        ensures
            r == spec_checked_offset(self@, offset, width),
    {
        let end = match offset.checked_add(width) {
            None => return Err(RawMemoryError::OffsetOverflow),
            Some(end) => end,
        };
        if end > self.size {
            return Err(RawMemoryError::RangeExceeds { offset, end, size: self.size });
        }
        Ok(())
    }

    /// The address of the byte range `[offset, offset + width)` of a live view.
    pub fn range_address(&self, offset: usize, width: usize) -> (r: Result<usize, RawMemoryError>)
        ensures
            r == spec_range_address(self@, offset, width),
            r matches Ok(a) ==> self@.address <= a && a + width <= self@.address + self@.size,
    {
        match self.checked_offset(offset, width) {
            Err(e) => return Err(e),
            Ok(()) => {},
        }
        if self.released {
            return Err(RawMemoryError::Released);
        }
        proof {
            use_type_invariant(self);
        }
        Ok(self.address + offset)
    }

    /// The pointer to `offset` (which may be one past the end).
    pub fn pointer_address(&self, offset: usize) -> (r: Result<usize, RawMemoryError>)
        ensures
            r == spec_pointer_address(self@, offset),
    {
        match self.checked_offset(offset, 0) {
            Err(e) => return Err(e),
            Ok(()) => {},
        }
        if self.released {
            return Err(RawMemoryError::Released);
        }
        proof {
            use_type_invariant(self);
        }
        Ok(self.address + offset)
    }
}

/// A block allocated here is freed exactly once, never while a native call
/// holds it: released with no lease it is freed at once; released while
/// leased it is freed when the last lease ends; once freed, neither a second
/// release nor a late lease end frees it again; and a released view grants
/// no new lease.
pub proof fn lemma_block_freed_once(m: RawMemoryModel)
    ensures
        spec_release(m).1 ==> m.leases == 0 && !m.freed && spec_release(m).0.freed,
        !m.external && !m.freed && m.leases == 0 ==> spec_release(m).1,
        spec_release(spec_release(m).0).1 == false,
        m.leases > 0 ==> (spec_end_lease(m).1 ==> spec_end_lease(m).0.leases == 0 && m.released && !m.freed),
        m.released && m.leases == 1 && !m.external && !m.freed ==> spec_end_lease(m).1,
        m.freed ==> !spec_release(m).1 && (m.leases > 0 ==> !spec_end_lease(m).1),
        m.released ==> spec_acquire_lease(m) == (m, Err::<(), RawMemoryError>(RawMemoryError::Released)),
{
}

/// A pointer into a view is in bounds: its address lies between the view's
/// start and end.
pub proof fn lemma_pointer_in_bounds(m: RawMemoryModel, offset: usize)
    requires
        m.address + m.size <= usize::MAX,
        spec_pointer_address(m, offset) is Ok,
    ensures
        m.address <= spec_pointer_address(m, offset)->Ok_0 <= m.address + m.size,
        spec_pointer_address(m, offset)->Ok_0 == m.address + offset,
{
}

/// A released view refuses every pointer that lies within its bounds.
pub proof fn lemma_released_view_refuses(m: RawMemoryModel, offset: usize)
    requires
        m.released,
        offset <= m.size,
    ensures
        spec_pointer_address(m, offset) == Err::<usize, RawMemoryError>(RawMemoryError::Released),
{
}

/// What a raw pointer refers to. An owned pointer points into raw memory at
/// an offset; the two COM kinds hold a COM reference whose address the
/// reference reports; an external pointer is a bare address from caller
/// storage; a consumed pointer was handed to a cleanup or a transfer.
#[derive(Clone, Copy, Debug, PartialEq, Eq, Structural)]
pub enum RawPointerKind {
    Owned { offset: usize },
    ComBorrowed,
    DetachedCom,
    External { address: usize },
    Consumed,
}

/// Why a raw pointer operation was refused.
#[derive(Clone, Copy, Debug, PartialEq, Eq, Structural)]
pub enum RawPointerError {
    /// The pointer was consumed; reading its address fails.
    Consumed,
    /// A consuming operation met a pointer that was consumed already.
    AlreadyConsumed,
    /// A cleanup needs an unowned external resource pointer.
    ExpectedExternalResource,
    /// Assuming a transferred reference needs an external pointer.
    ExpectedExternalTransfer,
    /// Adopting a transferred reference needs a detached COM pointer.
    ExpectedDetachedCom,
    /// Offsetting needs a pointer into raw memory.
    ExpectedOwned,
    /// Adding the byte offset overflowed.
    OffsetOverflow,
    /// A transferred reference was null.
    NullTransfer,
    /// The owning memory refused the access.
    Memory(RawMemoryError),
}

/// How a cleanup routine treats its pointer.
#[derive(Clone, Copy, Debug, PartialEq, Eq, Structural)]
pub enum CleanupRule {
    /// The routine cannot fail and ignores null: the pointer is consumed
    /// before the call (`CoTaskMemFree`, `SysFreeString`).
    ConsumeFirst,
    /// A null pointer is consumed without a call; otherwise the pointer is
    /// consumed only when the call succeeds (`LocalFree`, `GlobalFree`,
    /// `SafeArrayDestroy`).
    NullIsNoOp,
    /// The call is always made and the pointer is consumed only when it
    /// succeeds (`CloseHandle`, `DestroyIcon`, `DeleteObject`).
    AlwaysCall,
}

/// A raw pointer handed to JavaScript.
#[derive(Debug)]
pub struct DynComRawPointer {
    kind: RawPointerKind,
}

impl View for DynComRawPointer {
    type V = RawPointerKind;

    closed spec fn view(&self) -> RawPointerKind {
        self.kind
    }
}

/// The address a pointer reports, where `owner` is what its owning memory
/// (at the pointer's offset) or COM reference reports.
pub open spec fn spec_address_bits(kind: RawPointerKind, owner: Result<usize, RawPointerError>) -> Result<usize, RawPointerError> {
    match kind {
        RawPointerKind::External { address } => Ok(address),
        RawPointerKind::Consumed => Err(RawPointerError::Consumed),
        _ => owner,
    }
}

/// What a cleanup's first step returns: the address to hand to the native
/// routine, or `None` when no call is to be made.
pub open spec fn spec_begin_cleanup(kind: RawPointerKind, rule: CleanupRule) -> Result<Option<usize>, RawPointerError> {
    match kind {
        RawPointerKind::External { address } => match rule {
            CleanupRule::AlwaysCall => Ok(Some(address)),
            _ => if address == 0 { Ok(None) } else { Ok(Some(address)) },
        },
        RawPointerKind::Consumed => Err(RawPointerError::AlreadyConsumed),
        _ => Err(RawPointerError::ExpectedExternalResource),
    }
}

/// The pointer after a cleanup's first step.
pub open spec fn spec_after_begin_cleanup(kind: RawPointerKind, rule: CleanupRule) -> RawPointerKind {
    match kind {
        RawPointerKind::External { address } => match rule {
            CleanupRule::ConsumeFirst => RawPointerKind::Consumed,
            CleanupRule::NullIsNoOp => if address == 0 { RawPointerKind::Consumed } else { kind },
            CleanupRule::AlwaysCall => kind,
        },
        _ => kind,
    }
}

impl DynComRawPointer {
    /// A pointer to a caller-supplied address.
    pub fn from_address(address: usize) -> (r: DynComRawPointer)
        ensures
            r@ == (RawPointerKind::External { address }),
    {
        DynComRawPointer { kind: RawPointerKind::External { address } }
    }

    /// The null pointer.
    pub fn null() -> (r: DynComRawPointer)
        ensures
            r@ == (RawPointerKind::External { address: 0 }),
    {
        DynComRawPointer { kind: RawPointerKind::External { address: 0 } }
    }

    /// A pointer that borrows a live COM reference.
    pub fn com_borrowed() -> (r: DynComRawPointer)
        ensures
            r@ == RawPointerKind::ComBorrowed,
    {
        DynComRawPointer { kind: RawPointerKind::ComBorrowed }
    }

    /// A pointer that owns a reference detached from its owner.
    pub fn detached_com() -> (r: DynComRawPointer)
        ensures
            r@ == RawPointerKind::DetachedCom,
    {
        DynComRawPointer { kind: RawPointerKind::DetachedCom }
    }

    /// A pointer into `memory` at `offset`, which must lie in bounds (one
    /// past the end included) of the live view.
    pub fn into_memory(memory: &RawAllocation, offset: usize) -> (r: Result<DynComRawPointer, RawMemoryError>)
        ensures
            r is Ok <==> spec_pointer_address(memory@, offset) is Ok,
            r matches Ok(p) ==> p@ == (RawPointerKind::Owned { offset }),
            r matches Err(e) ==> spec_pointer_address(memory@, offset) == Err::<usize, RawMemoryError>(e),
    {
        match memory.pointer_address(offset) {
            Err(e) => Err(e),
            Ok(_) => Ok(DynComRawPointer { kind: RawPointerKind::Owned { offset } }),
        }
    }

    /// What the pointer refers to.
    pub fn kind(&self) -> (r: RawPointerKind)
        ensures
            r == self@,
    {
        self.kind
    }

    /// The pointer's address: an external pointer reports its own, a
    /// consumed one fails, and the others report what `owner` (their
    /// memory or COM reference) reported.
    pub fn address_bits(&self, owner: Result<usize, RawPointerError>) -> (r: Result<usize, RawPointerError>)
        ensures
            r == spec_address_bits(self@, owner),
    {
        match self.kind {
            RawPointerKind::External { address } => Ok(address),
            RawPointerKind::Consumed => Err(RawPointerError::Consumed),
            _ => owner,
        }
    }

    /// Whether the pointer's address is null.
    pub fn is_null(&self, owner: Result<usize, RawPointerError>) -> (r: Result<bool, RawPointerError>)
        ensures
            r matches Ok(b) ==> spec_address_bits(self@, owner) matches Ok(a) && b == (a == 0),
            r matches Err(e) ==> spec_address_bits(self@, owner) == Err::<usize, RawPointerError>(e),
            r is Ok <==> spec_address_bits(self@, owner) is Ok,
    {
        match self.address_bits(owner) {
            Ok(a) => Ok(a == 0),
            Err(e) => Err(e),
        }
    }

    /// The pointer `byte_offset` bytes further into the same memory, which
    /// must be the pointer's own memory; the new offset must stay in bounds.
    pub fn offset(&self, memory: &RawAllocation, byte_offset: usize) -> (r: Result<DynComRawPointer, RawPointerError>)
        ensures
            !(self@ is Owned) ==> r == Err::<DynComRawPointer, RawPointerError>(RawPointerError::ExpectedOwned),
            self@ matches RawPointerKind::Owned { offset } ==> {
                if offset + byte_offset > usize::MAX {
                    r == Err::<DynComRawPointer, RawPointerError>(RawPointerError::OffsetOverflow)
                } else {
                    match spec_pointer_address(memory@, (offset + byte_offset) as usize) {
                        Ok(_) => r matches Ok(p) && p@ == (RawPointerKind::Owned { offset: (offset + byte_offset) as usize }),
                        Err(e) => r == Err::<DynComRawPointer, RawPointerError>(RawPointerError::Memory(e)),
                    }
                }
            },
    {
        let offset = match self.kind {
            RawPointerKind::Owned { offset } => offset,
            _ => return Err(RawPointerError::ExpectedOwned),
        };
        let next = match offset.checked_add(byte_offset) {
            None => return Err(RawPointerError::OffsetOverflow),
            Some(next) => next,
        };
        match memory.pointer_address(next) {
            Err(e) => Err(RawPointerError::Memory(e)),
            Ok(_) => Ok(DynComRawPointer { kind: RawPointerKind::Owned { offset: next } }),
        }
    }

    /// The address of a `size`-byte view starting at this pointer: a pointer
    /// into raw memory must have `size` bytes left in it.
    pub fn view_address(&self, memory: &RawAllocation, size: usize, owner: Result<usize, RawPointerError>) -> (r: Result<usize, RawPointerError>)
        ensures
            self@ matches RawPointerKind::Owned { offset } ==> match spec_checked_offset(memory@, offset, size) {
                Err(e) => r == Err::<usize, RawPointerError>(RawPointerError::Memory(e)),
                Ok(()) => r == owner,
            },
            !(self@ is Owned) ==> r == spec_address_bits(self@, owner),
    {
        if let RawPointerKind::Owned { offset } = self.kind {
            match memory.checked_offset(offset, size) {
                Err(e) => return Err(RawPointerError::Memory(e)),
                Ok(()) => {},
            }
        }
        self.address_bits(owner)
    }

    /// Adopting a transferred reference needs a detached COM pointer.
    pub fn check_detached_com(&self) -> (r: Result<(), RawPointerError>)
        ensures
            r == (match self@ {
                RawPointerKind::DetachedCom => Ok(()),
                RawPointerKind::Consumed => Err(RawPointerError::AlreadyConsumed),
                _ => Err(RawPointerError::ExpectedDetachedCom),
            }),
    {
        match self.kind {
            RawPointerKind::DetachedCom => Ok(()),
            RawPointerKind::Consumed => Err(RawPointerError::AlreadyConsumed),
            _ => Err(RawPointerError::ExpectedDetachedCom),
        }
    }

    /// Takes the address of a caller-owned +1 reference out of an external
    /// pointer, consuming it; a null address is refused after consuming.
    pub fn take_assumed_transferred_address(&mut self) -> (r: Result<usize, RawPointerError>)
        ensures
            old(self)@ matches RawPointerKind::External { address } ==> {
                &&& final(self)@ == RawPointerKind::Consumed
                &&& r == if address == 0 {
                    Err::<usize, RawPointerError>(RawPointerError::NullTransfer)
                } else {
                    Ok(address)
                }
            },
            old(self)@ is Consumed ==> final(self)@ == old(self)@ && r == Err::<usize, RawPointerError>(RawPointerError::AlreadyConsumed),
            !(old(self)@ is External) && !(old(self)@ is Consumed) ==> final(self)@ == old(self)@
                && r == Err::<usize, RawPointerError>(RawPointerError::ExpectedExternalTransfer),
    {
        match self.kind {
            RawPointerKind::External { address } => {
                self.kind = RawPointerKind::Consumed;
                if address == 0 {
                    Err(RawPointerError::NullTransfer)
                } else {
                    Ok(address)
                }
            },
            RawPointerKind::Consumed => Err(RawPointerError::AlreadyConsumed),
            _ => Err(RawPointerError::ExpectedExternalTransfer),
        }
    }

    /// Marks the pointer consumed.
    pub fn consume(&mut self)
        ensures
            final(self)@ == RawPointerKind::Consumed,
    {
        self.kind = RawPointerKind::Consumed;
    }
}

/// The cleanup routines for external resource pointers.
pub struct DynComRawCleanup;

impl DynComRawCleanup {
    /// The first step of a cleanup: checks the pointer and tells whether a
    /// native call is to be made, and on which address.
    pub fn begin(pointer: &mut DynComRawPointer, rule: CleanupRule) -> (r: Result<Option<usize>, RawPointerError>)
        ensures
            r == spec_begin_cleanup(old(pointer)@, rule),
            final(pointer)@ == spec_after_begin_cleanup(old(pointer)@, rule),
    {
        match pointer.kind {
            RawPointerKind::External { address } => {
                match rule {
                    CleanupRule::ConsumeFirst => {
                        pointer.consume();
                        if address == 0 { Ok(None) } else { Ok(Some(address)) }
                    },
                    CleanupRule::NullIsNoOp => {
                        if address == 0 {
                            pointer.consume();
                            Ok(None)
                        } else {
                            Ok(Some(address))
                        }
                    },
                    CleanupRule::AlwaysCall => Ok(Some(address)),
                }
            },
            RawPointerKind::Consumed => Err(RawPointerError::AlreadyConsumed),
            _ => Err(RawPointerError::ExpectedExternalResource),
        }
    }

    /// The last step of a cleanup whose native call was made: the pointer is
    /// consumed only when the call succeeded.
    pub fn finish(pointer: &mut DynComRawPointer, succeeded: bool)
        ensures
            succeeded ==> final(pointer)@ == RawPointerKind::Consumed,
            !succeeded ==> final(pointer)@ == old(pointer)@,
    {
        if succeeded {
            pointer.consume();
        }
    }
}

/// A resource is cleaned up at most once: after a cleanup's first step
/// consumed the pointer, or after a successful native call, every further
/// cleanup of it is refused.
pub proof fn lemma_cleanup_once(kind: RawPointerKind, rule: CleanupRule, again: CleanupRule)
    requires
        spec_after_begin_cleanup(kind, rule) is Consumed,
    ensures
        spec_begin_cleanup(spec_after_begin_cleanup(kind, rule), again)
            == Err::<Option<usize>, RawPointerError>(RawPointerError::AlreadyConsumed),
        spec_begin_cleanup(RawPointerKind::Consumed, again)
            == Err::<Option<usize>, RawPointerError>(RawPointerError::AlreadyConsumed),
{
}

/// A cleanup that does not call the native routine consumes the pointer,
/// so nothing leaks a second chance; a cleanup whose first step asks for a
/// call leaves the pointer as it was unless the rule consumes first.
pub proof fn lemma_cleanup_without_call_consumes(kind: RawPointerKind, rule: CleanupRule)
    requires
        spec_begin_cleanup(kind, rule) == Ok::<Option<usize>, RawPointerError>(None),
    ensures
        spec_after_begin_cleanup(kind, rule) == RawPointerKind::Consumed,
{
}

/// Why a raw COM reference refused an operation.
#[derive(Clone, Copy, Debug, PartialEq, Eq, Structural)]
pub enum RawComError {
    /// The reference was consumed or released.
    Gone,
    /// The destination slot was refused.
    Memory(RawMemoryError),
}

/// An owned COM reference held for raw calls: the interface address while
/// the reference is held, nothing once it was released or handed on.
#[derive(Debug)]
pub struct RawComReference {
    address: Option<usize>,
}

impl View for RawComReference {
    type V = Option<usize>;

    closed spec fn view(&self) -> Option<usize> {
        self.address
    }
}

/// A transfer of the reference into a pointer slot: the slot must be a live,
/// in-bounds, pointer-wide range; on success the reference is handed on.
pub open spec fn spec_transfer(r: Option<usize>, m: RawMemoryModel, offset: usize)
    -> (Option<usize>, Result<(usize, usize), RawComError>)
{
    match r {
        None => (r, Err(RawComError::Gone)),
        Some(a) => match spec_range_address(m, offset, (usize::BITS / 8) as usize) {
            Err(e) => (r, Err(RawComError::Memory(e))),
            Ok(slot) => (None, Ok((slot, a))),
        },
    }
}

impl RawComReference {
    /// A reference to the interface at `address`.
    pub fn new(address: usize) -> (r: RawComReference)
        ensures
            r@ == Some(address),
    {
        RawComReference { address: Some(address) }
    }

    /// Refuses a reference that was consumed or released.
    pub fn validate_live(&self) -> (r: Result<(), RawComError>)
        ensures
            r is Ok <==> self@ is Some,
            r is Err ==> r == Err::<(), RawComError>(RawComError::Gone),
    {
        match self.address {
            Some(_) => Ok(()),
            None => Err(RawComError::Gone),
        }
    }

    /// The interface address of a held reference.
    pub fn address(&self) -> (r: Result<usize, RawComError>)
        ensures
            self@ matches Some(a) ==> r == Ok::<usize, RawComError>(a),
            self@ is None ==> r == Err::<usize, RawComError>(RawComError::Gone),
    {
        match self.address {
            Some(a) => Ok(a),
            None => Err(RawComError::Gone),
        }
    }

    /// Whether the reference was consumed or released.
    pub fn released(&self) -> (r: bool)
        ensures
            r == (self@ is None),
    {
        self.address.is_none()
    }

    /// Takes the reference out, once.
    pub fn take_value(&mut self) -> (r: Result<usize, RawComError>)
        ensures
            old(self)@ matches Some(a) ==> r == Ok::<usize, RawComError>(a),
            old(self)@ is None ==> r == Err::<usize, RawComError>(RawComError::Gone),
            final(self)@ is None,
    {
        match self.address.take() {
            Some(a) => Ok(a),
            None => Err(RawComError::Gone),
        }
    }

    /// Releases the reference; returns the address to release, if it was
    /// still held.
    pub fn release(&mut self) -> (r: Option<usize>)
        ensures
            r == old(self)@,
            final(self)@ is None,
    {
        self.address.take()
    }

    /// Hands the reference on by writing it into a pointer slot of
    /// `memory` at `offset`: returns the slot address and the value to write.
    /// On failure the reference stays held.
    pub fn transfer_to_memory(&mut self, memory: &RawAllocation, offset: usize) -> (r: Result<(usize, usize), RawComError>)
        ensures
            (final(self)@, r) == spec_transfer(old(self)@, memory@, offset),
    {
        let a = match self.address {
            None => return Err(RawComError::Gone),
            Some(a) => a,
        };
        let width = (usize::BITS / 8) as usize;
        match memory.range_address(offset, width) {
            Err(e) => Err(RawComError::Memory(e)),
            Ok(slot) => {
                self.address = None;
                Ok((slot, a))
            },
        }
    }
}

/// A transfer is atomic and one-shot: a refused transfer leaves the
/// reference held, and after a transfer every further transfer is refused.
pub proof fn lemma_transfer_once(r: Option<usize>, m: RawMemoryModel, offset: usize, again: RawMemoryModel, offset2: usize)
    ensures
        spec_transfer(r, m, offset).1 is Err ==> spec_transfer(r, m, offset).0 == r,
        spec_transfer(r, m, offset).1 is Ok ==>
            spec_transfer(spec_transfer(r, m, offset).0, again, offset2).1 == Err::<(usize, usize), RawComError>(RawComError::Gone),
{
}

/// The raw COM entry points.
pub struct DynComRaw;

impl DynComRaw {
    /// The width of a pointer on this target, in bytes.
    pub fn pointer_size() -> (r: u32)
        ensures
            r == usize::BITS / 8,
    {
        usize::BITS / 8
    }

    /// An exact interface output slot must be live, at least pointer wide and
    /// pointer aligned.
    pub fn validate_exact_output_slot(memory: &RawAllocation) -> (r: Result<(), RawMemoryError>)
        ensures
            memory@.released ==> r == Err::<(), RawMemoryError>(RawMemoryError::Released),
            !memory@.released && memory@.size < usize::BITS / 8 ==> r == Err::<(), RawMemoryError>(RawMemoryError::SlotTooSmall),
            !memory@.released && memory@.size >= usize::BITS / 8 ==> r == (
                if memory@.alignment < usize::BITS / 8 || memory@.address % (usize::BITS / 8) as usize != 0 {
                    Err(RawMemoryError::SlotMisaligned)
                } else {
                    Ok(())
                }),
    {
        match memory.validate_live() {
            Err(e) => return Err(e),
            Ok(()) => {},
        }
        let width = (usize::BITS / 8) as usize;
        if memory.size() < width {
            return Err(RawMemoryError::SlotTooSmall);
        }
        let address = match memory.pointer_address(0) {
            Err(e) => return Err(e),
            Ok(a) => a,
        };
        if memory.alignment() < width || address % width != 0 {
            return Err(RawMemoryError::SlotMisaligned);
        }
        Ok(())
    }
}

} // verus!
