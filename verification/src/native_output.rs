//! Who owns a native pointer held by a runtime value: where it came from
//! decides whether it may be consumed, and how it is freed if it never is.
use vstd::prelude::*;
use crate::raw_memory::{spec_address_bits, DynComRawPointer, RawPointerError, RawPointerKind};

verus! {

/// What a native call said about a pointer it returned.
#[derive(Clone, Copy, Debug, PartialEq, Eq, Structural)]
pub enum PointerOutputKind {
    /// The call said nothing about ownership.
    Unspecified,
    Unclassified,
    Com,
    CoTaskMem,
    Bstr,
}

/// Where the pointer held by a value came from.
#[derive(Clone, Copy, Debug, PartialEq, Eq, Structural)]
pub enum PointerProvenance {
    /// Not a native output (or already consumed).
    NoOutput,
    /// Lent by the caller; never freed here.
    Borrowed,
    /// A COM reference detached from its owner.
    DetachedCom,
    /// A native output of unknown ownership.
    UnclassifiedOutput,
    /// An owned COM interface output (+1 reference).
    ComOutput,
    /// An owned `CoTaskMemAlloc` block.
    CoTaskMemOutput,
    /// An owned `BSTR`.
    BstrOutput,
}

/// What a value holds, as far as pointers go.
#[derive(Clone, Copy, Debug, PartialEq, Eq, Structural)]
pub enum SlotValue {
    RawPtr(usize),
    Null,
    /// A managed COM object.
    Object,
    /// Any other value.
    Other,
}

/// How an owned output is freed.
#[derive(Clone, Copy, Debug, PartialEq, Eq, Structural)]
pub enum ReleaseAction {
    ReleaseCom,
    FreeCoTaskMem,
    FreeBstr,
}

/// Why a native output could not be consumed.
#[derive(Clone, Copy, Debug, PartialEq, Eq, Structural)]
pub enum OutputPointerError {
    /// The pointer is kept alive by an owner and cannot be taken.
    OwnerBacked,
    /// The pointer's provenance is not the one the consumer expects.
    WrongProvenance { found: PointerProvenance, expected: PointerProvenance },
    /// The value holds no pointer.
    NotAPointer,
    /// A managed COM object's address is never handed out as raw bits.
    ManagedObject,
}

/// The pointer part of a runtime value.
#[derive(Debug)]
pub struct NativeOutputValue {
    slot: SlotValue,
    owner_backed: bool,
    provenance: PointerProvenance,
}

/// The plain contents of a runtime value's pointer part.
pub struct NativeOutputModel {
    pub slot: SlotValue,
    pub owner_backed: bool,
    pub provenance: PointerProvenance,
}

impl View for NativeOutputValue {
    type V = NativeOutputModel;

    closed spec fn view(&self) -> NativeOutputModel {
        NativeOutputModel { slot: self.slot, owner_backed: self.owner_backed, provenance: self.provenance }
    }
}

/// The provenance of a native call's result.
pub open spec fn spec_result_provenance(slot: SlotValue, kind: PointerOutputKind) -> PointerProvenance {
    if slot is RawPtr {
        match kind {
            PointerOutputKind::Unspecified | PointerOutputKind::Unclassified => PointerProvenance::UnclassifiedOutput,
            PointerOutputKind::Com => PointerProvenance::ComOutput,
            PointerOutputKind::CoTaskMem => PointerProvenance::CoTaskMemOutput,
            PointerOutputKind::Bstr => PointerProvenance::BstrOutput,
        }
    } else {
        PointerProvenance::NoOutput
    }
}

/// Taking a pointer out of a value: the result, and the value afterwards.
pub open spec fn spec_take_output(m: NativeOutputModel, expected: PointerProvenance) -> (Result<usize, OutputPointerError>, NativeOutputModel) {
    if m.owner_backed {
        (Err(OutputPointerError::OwnerBacked), m)
    } else if m.provenance != expected {
        (Err(OutputPointerError::WrongProvenance { found: m.provenance, expected }), m)
    } else {
        match m.slot {
            SlotValue::RawPtr(p) => (Ok(p), NativeOutputModel { slot: SlotValue::Null, provenance: PointerProvenance::NoOutput, ..m }),
            SlotValue::Null => (Ok(0), NativeOutputModel { slot: SlotValue::Null, provenance: PointerProvenance::NoOutput, ..m }),
            _ => (Err(OutputPointerError::NotAPointer), m),
        }
    }
}

/// The raw bits a value exports as a pointer.
pub open spec fn spec_pointer_bits(slot: SlotValue) -> Result<usize, OutputPointerError> {
    match slot {
        SlotValue::RawPtr(p) => Ok(p),
        SlotValue::Null => Ok(0),
        SlotValue::Object => Err(OutputPointerError::ManagedObject),
        SlotValue::Other => Err(OutputPointerError::NotAPointer),
    }
}

/// What an unconsumed owned output needs when its value is dropped.
pub open spec fn spec_release_action(m: NativeOutputModel) -> Option<(usize, ReleaseAction)> {
    match m.slot {
        SlotValue::RawPtr(p) => if p == 0 {
            None
        } else {
            match m.provenance {
                PointerProvenance::ComOutput => Some((p, ReleaseAction::ReleaseCom)),
                PointerProvenance::CoTaskMemOutput => Some((p, ReleaseAction::FreeCoTaskMem)),
                PointerProvenance::BstrOutput => Some((p, ReleaseAction::FreeBstr)),
                _ => None,
            }
        },
        _ => None,
    }
}

/// The value after its owned output was released.
pub open spec fn spec_after_release(m: NativeOutputModel) -> NativeOutputModel {
    if m.slot is RawPtr {
        NativeOutputModel { slot: SlotValue::Null, provenance: PointerProvenance::NoOutput, ..m }
    } else {
        m
    }
}

impl NativeOutputValue {
    /// The result of a native call.
    pub fn from_com_result(slot: SlotValue, kind: PointerOutputKind) -> (r: NativeOutputValue)
        ensures
            r@ == (NativeOutputModel { slot, owner_backed: false, provenance: spec_result_provenance(slot, kind) }),
    {
        let provenance = match slot {
            SlotValue::RawPtr(_) => match kind {
                PointerOutputKind::Unspecified | PointerOutputKind::Unclassified => PointerProvenance::UnclassifiedOutput,
                PointerOutputKind::Com => PointerProvenance::ComOutput,
                PointerOutputKind::CoTaskMem => PointerProvenance::CoTaskMemOutput,
                PointerOutputKind::Bstr => PointerProvenance::BstrOutput,
            },
            _ => PointerProvenance::NoOutput,
        };
        NativeOutputValue { slot, owner_backed: false, provenance }
    }

    /// A pointer lent by the caller.
    pub fn with_borrowed_pointer(slot: SlotValue) -> (r: NativeOutputValue)
        ensures
            r@ == (NativeOutputModel { slot, owner_backed: false, provenance: PointerProvenance::Borrowed }),
    {
        NativeOutputValue { slot, owner_backed: false, provenance: PointerProvenance::Borrowed }
    }

    /// A pointer kept alive by an owner (a byte view, raw memory, a string).
    pub fn with_pointer_owner(slot: SlotValue) -> (r: NativeOutputValue)
        ensures
            r@ == (NativeOutputModel { slot, owner_backed: true, provenance: PointerProvenance::Borrowed }),
    {
        NativeOutputValue { slot, owner_backed: true, provenance: PointerProvenance::Borrowed }
    }

    /// A COM reference detached from its owner.
    pub fn with_detached_com_owner(slot: SlotValue) -> (r: NativeOutputValue)
        ensures
            r@ == (NativeOutputModel { slot, owner_backed: true, provenance: PointerProvenance::DetachedCom }),
    {
        NativeOutputValue { slot, owner_backed: true, provenance: PointerProvenance::DetachedCom }
    }

    /// What the value holds.
    pub fn slot(&self) -> (r: SlotValue)
        ensures
            r == self@.slot,
    {
        self.slot
    }

    /// Where its pointer came from.
    pub fn provenance(&self) -> (r: PointerProvenance)
        ensures
            r == self@.provenance,
    {
        self.provenance
    }

    /// Takes an owned native output of the expected provenance out of the
    /// value, which then holds null; the caller now owns the pointer.
    pub fn take_native_output_pointer(&mut self, expected: PointerProvenance) -> (r: Result<usize, OutputPointerError>)
        ensures
            (r, final(self)@) == spec_take_output(old(self)@, expected),
    {
        if self.owner_backed {
            return Err(OutputPointerError::OwnerBacked);
        }
        if self.provenance != expected {
            return Err(OutputPointerError::WrongProvenance { found: self.provenance, expected });
        }
        match self.slot {
            SlotValue::RawPtr(p) => {
                self.slot = SlotValue::Null;
                self.provenance = PointerProvenance::NoOutput;
                Ok(p)
            },
            SlotValue::Null => {
                self.slot = SlotValue::Null;
                self.provenance = PointerProvenance::NoOutput;
                Ok(0)
            },
            _ => Err(OutputPointerError::NotAPointer),
        }
    }

    /// The raw bits of a pointer value (null is zero), without taking it.
    pub fn pointer_bits(&self) -> (r: Result<usize, OutputPointerError>)
        ensures
            r == spec_pointer_bits(self@.slot),
    {
        match self.slot {
            SlotValue::RawPtr(p) => Ok(p),
            SlotValue::Null => Ok(0),
            SlotValue::Object => Err(OutputPointerError::ManagedObject),
            SlotValue::Other => Err(OutputPointerError::NotAPointer),
        }
    }

    /// Takes the unowned direct pointer that an `IMalloc` call returned.
    pub fn take_malloc_return_pointer(&mut self) -> (r: Result<usize, OutputPointerError>)
        ensures
            (r, final(self)@) == spec_take_output(old(self)@, PointerProvenance::UnclassifiedOutput),
    {
        self.take_native_output_pointer(PointerProvenance::UnclassifiedOutput)
    }

    /// Empties the value and tells how to free an owned output it held.
    pub fn release_native_pointer_output(&mut self) -> (r: Option<(usize, ReleaseAction)>)
        ensures
            r == spec_release_action(old(self)@),
            final(self)@ == spec_after_release(old(self)@),
    {
        let p = match self.slot {
            SlotValue::RawPtr(p) => p,
            _ => return None,
        };
        let provenance = self.provenance;
        self.slot = SlotValue::Null;
        self.provenance = PointerProvenance::NoOutput;
        if p == 0 {
            return None;
        }
        match provenance {
            PointerProvenance::ComOutput => Some((p, ReleaseAction::ReleaseCom)),
            PointerProvenance::CoTaskMemOutput => Some((p, ReleaseAction::FreeCoTaskMem)),
            PointerProvenance::BstrOutput => Some((p, ReleaseAction::FreeBstr)),
            _ => None,
        }
    }
}

/// An owned output is handed out at most once: after it was taken, taking
/// it again fails and dropping the value frees nothing.
pub proof fn lemma_output_consumed_once(m: NativeOutputModel, expected: PointerProvenance)
    requires
        spec_take_output(m, expected).0 is Ok,
        expected != PointerProvenance::NoOutput,
    ensures
        spec_take_output(spec_take_output(m, expected).1, expected).0 is Err,
        spec_release_action(spec_take_output(m, expected).1) is None,
{
}

/// Borrowed and owner-backed pointers are never freed when their value is
/// dropped, and an owner-backed pointer can never be taken.
pub proof fn lemma_borrowed_never_freed(m: NativeOutputModel, expected: PointerProvenance)
    requires
        m.provenance == PointerProvenance::Borrowed || m.provenance == PointerProvenance::DetachedCom
            || m.owner_backed,
    ensures
        !m.owner_backed ==> spec_release_action(m) is None,
        m.owner_backed ==> spec_take_output(m, expected).0 == Err::<usize, OutputPointerError>(OutputPointerError::OwnerBacked),
{
}

/// Releasing twice frees at most once.
pub proof fn lemma_release_once(m: NativeOutputModel)
    ensures
        spec_release_action(spec_after_release(m)) is None,
{
}

/// The value a raw pointer is passed as, at `address`: pointers into raw
/// memory and borrowed COM pointers are kept alive by their owner, a
/// detached COM pointer by its detached reference, and an external pointer
/// is merely borrowed.
pub open spec fn spec_raw_pointer_value(kind: RawPointerKind, address: usize) -> NativeOutputModel {
    let slot = SlotValue::RawPtr(address);
    match kind {
        RawPointerKind::External { .. } => NativeOutputModel { slot, owner_backed: false, provenance: PointerProvenance::Borrowed },
        RawPointerKind::DetachedCom => NativeOutputModel { slot, owner_backed: true, provenance: PointerProvenance::DetachedCom },
        _ => NativeOutputModel { slot, owner_backed: true, provenance: PointerProvenance::Borrowed },
    }
}

impl DynComRawPointer {
    /// The value the pointer is passed as, where `owner` is what its owning
    /// memory or COM reference reports; a consumed pointer has none.
    pub fn to_value(&self, owner: Result<usize, RawPointerError>) -> (r: Result<NativeOutputValue, RawPointerError>)
        ensures
            r is Ok <==> spec_address_bits(self@, owner) is Ok,
            r matches Err(e) ==> spec_address_bits(self@, owner) == Err::<usize, RawPointerError>(e),
            r matches Ok(v) ==> spec_address_bits(self@, owner) matches Ok(a) && v@ == spec_raw_pointer_value(self@, a),
    {
        let address = match self.address_bits(owner) {
            Ok(a) => a,
            Err(e) => return Err(e),
        };
        let slot = SlotValue::RawPtr(address);
        match self.kind() {
            RawPointerKind::External { .. } => Ok(NativeOutputValue::with_borrowed_pointer(slot)),
            RawPointerKind::DetachedCom => Ok(NativeOutputValue::with_detached_com_owner(slot)),
            _ => Ok(NativeOutputValue::with_pointer_owner(slot)),
        }
    }
}

/// A raw pointer passed as a value can never be adopted as a native output:
/// taking it as any output of a native call fails and leaves it as it was.
pub proof fn lemma_raw_pointer_values_not_adoptable(kind: RawPointerKind, address: usize, expected: PointerProvenance)
    requires
        expected == PointerProvenance::UnclassifiedOutput || expected == PointerProvenance::ComOutput
            || expected == PointerProvenance::CoTaskMemOutput || expected == PointerProvenance::BstrOutput,
    ensures
        spec_take_output(spec_raw_pointer_value(kind, address), expected).0 is Err,
        spec_take_output(spec_raw_pointer_value(kind, address), expected).1 == spec_raw_pointer_value(kind, address),
        spec_release_action(spec_raw_pointer_value(kind, address)) is None,
{
}

} // verus!
