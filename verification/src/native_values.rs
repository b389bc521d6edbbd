//! Native struct values handed to JavaScript as branded byte blocks, and
//! the re-entrancy flag of tracked raw dispatch calls.
use vstd::prelude::*;
use crate::json::string_is;
use crate::typed_buffer::{TypedBufferError, check_array_element_width};

verus! {

/// The bytes of one native struct, branded with the descriptor that laid
/// them out.
#[derive(Debug)]
pub struct DynComNativeStruct {
    descriptor: String,
    bytes: Vec<u8>,
}

/// The bytes of an array of native structs, branded with the descriptor of
/// the element type.
#[derive(Debug)]
pub struct DynComNativeStructArray {
    descriptor: String,
    bytes: Vec<u8>,
}

/// A native struct value given for another descriptor than the one it was
/// made with.
#[derive(Clone, Copy, Debug, PartialEq, Eq, Structural)]
pub struct NativeStructTypeMismatch;

/// Why a native struct value cannot be passed for a descriptor.
#[derive(Clone, Copy, Debug, PartialEq, Eq, Structural)]
pub enum NativeStructValueError {
    /// It was made with another descriptor.
    TypeMismatch,
    /// Its bytes are not exactly the struct's size.
    SizeMismatch,
}

impl DynComNativeStruct {
    pub closed spec fn spec_descriptor(&self) -> Seq<char> {
        self.descriptor@
    }

    pub closed spec fn spec_bytes(&self) -> Seq<u8> {
        self.bytes@
    }

    /// A struct value of `descriptor` holding `bytes`.
    pub fn new(descriptor: String, bytes: Vec<u8>) -> (r: DynComNativeStruct)
        ensures
            r.spec_descriptor() == descriptor@,
            r.spec_bytes() == bytes@,
    {
        DynComNativeStruct { descriptor, bytes }
    }

    /// The byte length, as JavaScript reads it (truncated to 32 bits).
    pub fn length(&self) -> (r: u32)
        ensures
            r == self.spec_bytes().len() as u32,
    {
        self.bytes.len() as u32
    }

    /// A copy of the bytes.
    pub fn bytes(&self) -> (r: Vec<u8>)
        ensures
            r@ == self.spec_bytes(),
    {
        self.bytes.clone()
    }

    /// The descriptor the value was made with.
    pub fn descriptor(&self) -> (r: &String)
        ensures
            r@ == self.spec_descriptor(),
    {
        &self.descriptor
    }

    /// A value may be passed only where its own descriptor is expected.
    pub fn check_brand(&self, descriptor: &String) -> (r: Result<(), NativeStructTypeMismatch>)
        ensures
            r is Ok <==> self.spec_descriptor() == descriptor@,
    {
        if string_is(&self.descriptor, descriptor.as_str()) {
            Ok(())
        } else {
            Err(NativeStructTypeMismatch)
        }
    }

    /// A value may be passed for `descriptor`, whose struct is `size` bytes,
    /// only when it was made with that descriptor and holds exactly `size`
    /// bytes.
    pub fn check_native_struct(&self, descriptor: &String, size: usize) -> (r: Result<(), NativeStructValueError>)
        ensures
            self.spec_descriptor() != descriptor@ ==> r == Err::<(), NativeStructValueError>(NativeStructValueError::TypeMismatch),
            self.spec_descriptor() == descriptor@ && self.spec_bytes().len() != size
                ==> r == Err::<(), NativeStructValueError>(NativeStructValueError::SizeMismatch),
            self.spec_descriptor() == descriptor@ && self.spec_bytes().len() == size ==> r is Ok,
    {
        match self.check_brand(descriptor) {
            Err(_) => Err(NativeStructValueError::TypeMismatch),
            Ok(()) => if self.bytes.len() != size {
                Err(NativeStructValueError::SizeMismatch)
            } else {
                Ok(())
            },
        }
    }
}

impl DynComNativeStructArray {
    pub closed spec fn spec_descriptor(&self) -> Seq<char> {
        self.descriptor@
    }

    pub closed spec fn spec_bytes(&self) -> Seq<u8> {
        self.bytes@
    }

    /// An array value of `descriptor` elements holding `bytes`.
    pub fn new(descriptor: String, bytes: Vec<u8>) -> (r: DynComNativeStructArray)
        ensures
            r.spec_descriptor() == descriptor@,
            r.spec_bytes() == bytes@,
    {
        DynComNativeStructArray { descriptor, bytes }
    }

    /// The byte length, as JavaScript reads it (truncated to 32 bits).
    pub fn length(&self) -> (r: u32)
        ensures
            r == self.spec_bytes().len() as u32,
    {
        self.bytes.len() as u32
    }

    /// A copy of the bytes.
    pub fn bytes(&self) -> (r: Vec<u8>)
        ensures
            r@ == self.spec_bytes(),
    {
        self.bytes.clone()
    }

    /// A value may be passed only where its own descriptor is expected.
    pub fn check_brand(&self, descriptor: &String) -> (r: Result<(), NativeStructTypeMismatch>)
        ensures
            r is Ok <==> self.spec_descriptor() == descriptor@,
    {
        if string_is(&self.descriptor, descriptor.as_str()) {
            Ok(())
        } else {
            Err(NativeStructTypeMismatch)
        }
    }
}

/// The `index`-th element of `size`-byte structs laid end to end.
pub open spec fn spec_chunk(bytes: Seq<u8>, size: nat, index: int) -> Seq<u8> {
    bytes.subrange(index * size, (index + 1) * size)
}

/// Splits an owned array result into one struct value per element: the
/// bytes must split evenly into elements of `size` bytes.
pub fn split_native_struct_array(descriptor: &String, bytes: &Vec<u8>, size: usize) -> (r: Result<Vec<DynComNativeStruct>, TypedBufferError>)
    ensures
        r is Ok <==> (size != 0 && bytes.len() % size == 0),
        r is Err ==> r == Err::<Vec<DynComNativeStruct>, TypedBufferError>(TypedBufferError::InvalidElementWidth),
        r matches Ok(v) ==> {
            &&& v@.len() * size == bytes@.len()
            &&& forall|i: int| 0 <= i < v@.len() ==> {
                &&& (#[trigger] v@[i]).spec_descriptor() == descriptor@
                &&& v@[i].spec_bytes() == spec_chunk(bytes@, size as nat, i)
            }
        },
{
    match check_array_element_width(bytes.len(), size) {
        Err(e) => return Err(e),
        Ok(()) => {},
    }
    let n = bytes.len();
    let count = n / size;
    proof {
        vstd::arithmetic::div_mod::lemma_fundamental_div_mod(bytes@.len() as int, size as int);
        assert(count * size == size * count) by (nonlinear_arith);
    }
    let mut out: Vec<DynComNativeStruct> = Vec::new();
    let mut i: usize = 0;
    while i < count
        invariant
            0 < size,
            count * size == bytes@.len(),
            n == bytes@.len(),
            n <= usize::MAX,
            i <= count,
            out@.len() == i,
            forall|k: int| 0 <= k < i ==> {
                &&& (#[trigger] out@[k]).spec_descriptor() == descriptor@
                &&& out@[k].spec_bytes() == spec_chunk(bytes@, size as nat, k)
            },
        decreases count - i,
    {
        proof {
            assert((i + 1) * size <= count * size) by (nonlinear_arith)
                requires i + 1 <= count, 0 < size;
            assert(i * size + size == (i + 1) * size) by (nonlinear_arith);
            assert(i * size + size <= n);
        }
        let start = i * size;
        let mut chunk: Vec<u8> = Vec::new();
        let mut j: usize = 0;
        while j < size
            invariant
                0 < size,
                start + size <= bytes@.len(),
                bytes@.len() <= usize::MAX,
                j <= size,
                chunk@ == bytes@.subrange(start as int, start + j),
            decreases size - j,
        {
            chunk.push(bytes[start + j]);
            j = j + 1;
        }
        let element = DynComNativeStruct { descriptor: descriptor.clone(), bytes: chunk };
        out.push(element);
        i = i + 1;
    }
    proof {
        assert(out@.len() * size == bytes@.len());
    }
    Ok(out)
}

/// Whether a tracked raw dispatch call reached the native method.
#[derive(Debug)]
pub struct DynComRawDispatchState {
    entered: bool,
}

impl DynComRawDispatchState {
    pub closed spec fn spec_entered(&self) -> bool {
        self.entered
    }

    /// A state for a call that has not started.
    pub fn create_dispatch_state() -> (r: DynComRawDispatchState)
        ensures
            !r.spec_entered(),
    {
        DynComRawDispatchState { entered: false }
    }

    /// Whether the last tracked call reached the native method.
    pub fn dispatch_entered(&self) -> (r: bool)
        ensures
            r == self.spec_entered(),
    {
        self.entered
    }

    /// Clears the flag before a tracked call.
    pub fn begin_call(&mut self)
        ensures
            !final(self).spec_entered(),
    {
        self.entered = false;
    }

    /// Records that the native method was reached.
    pub fn mark_entered(&mut self)
        ensures
            final(self).spec_entered(),
    {
        self.entered = true;
    }
}

/// Counters kept by the generated unsafe COM test object.
#[derive(Clone, Copy, Debug, PartialEq, Eq, Structural)]
pub struct GeneratedUnsafeComStats {
    pub query_interface_calls: u32,
    pub add_ref_calls: u32,
    pub release_calls: u32,
    pub open_namespace_calls: u32,
    pub open_namespace_working_slot_null: bool,
    pub open_namespace_working_argument_null: bool,
    pub open_namespace_result_slot_null: bool,
    pub open_namespace_result_argument_null: bool,
    pub open_namespace_context_argument_null: bool,
    pub open_namespace_last_flags: i32,
    pub query_object_sink_calls: u32,
    pub last_flags: i32,
    pub current_ref_count: u32,
    pub last_output_address: u32,
}

/// Counters kept by the generated audio client test object.
#[derive(Clone, Copy, Debug, PartialEq, Eq, Structural)]
pub struct GeneratedAudioClientStats {
    pub is_format_supported_calls: u32,
    pub get_service_calls: u32,
    pub last_share_mode: i32,
    pub last_format_tag: u32,
    pub add_ref_calls: u32,
    pub release_calls: u32,
    pub current_ref_count: u32,
}

} // verus!
