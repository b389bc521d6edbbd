//! The shape of the reply a JavaScript COM sink callback must give: a bare
//! HRESULT, nothing, a bare return value, or an array holding the HRESULT
//! or return value first and then each native output.
use vstd::prelude::*;

verus! {

/// What the native callback returns.
#[derive(Clone, Copy, Debug, PartialEq, Eq, Structural)]
pub enum CallbackReturnKind {
    HResult,
    Void,
    Value,
}

/// The native signature of a sink callback, as far as its reply matters.
#[derive(Clone, Copy, Debug, PartialEq, Eq, Structural)]
pub struct CallbackContract {
    pub return_kind: CallbackReturnKind,
    pub output_count: usize,
}

/// How the JavaScript reply is read.
#[derive(Clone, Copy, Debug, PartialEq, Eq, Structural)]
pub enum SinkReplyShape {
    /// The reply is the HRESULT itself.
    HResultScalar,
    /// The reply is ignored and the callback succeeds.
    NoReply,
    /// The reply is the return value itself.
    ValueScalar,
    /// The reply is an array: `prefix` leading slots (the HRESULT or return
    /// value, if any) followed by the outputs.
    Array { prefix: usize },
}

/// Why a sink reply was refused.
#[derive(Clone, Copy, Debug, PartialEq, Eq, Structural)]
pub enum SinkReplyError {
    /// A callback with native outputs must reply with an array.
    NotArray,
    /// The array does not hold exactly the leading slot and the outputs.
    WrongLength,
}

/// The number of leading slots before the outputs.
pub open spec fn spec_prefix(return_kind: CallbackReturnKind) -> usize {
    if return_kind == CallbackReturnKind::Void { 0 } else { 1 }
}

/// How the reply to a callback with this contract is read.
pub open spec fn spec_sink_reply_shape(c: CallbackContract) -> SinkReplyShape {
    if c.output_count == 0 {
        match c.return_kind {
            CallbackReturnKind::HResult => SinkReplyShape::HResultScalar,
            CallbackReturnKind::Void => SinkReplyShape::NoReply,
            CallbackReturnKind::Value => SinkReplyShape::ValueScalar,
        }
    } else {
        SinkReplyShape::Array { prefix: spec_prefix(c.return_kind) }
    }
}

/// How the reply to a callback with this contract is read.
pub fn sink_reply_shape(c: CallbackContract) -> (r: SinkReplyShape)
    ensures
        r == spec_sink_reply_shape(c),
{
    if c.output_count == 0 {
        match c.return_kind {
            CallbackReturnKind::HResult => SinkReplyShape::HResultScalar,
            CallbackReturnKind::Void => SinkReplyShape::NoReply,
            CallbackReturnKind::Value => SinkReplyShape::ValueScalar,
        }
    } else {
        let prefix: usize = match c.return_kind {
            CallbackReturnKind::Void => 0,
            _ => 1,
        };
        SinkReplyShape::Array { prefix }
    }
}

/// Checks an array reply: it must be an array of exactly the leading slot
/// and the outputs. Returns the number of leading slots.
pub fn check_sink_reply_array(c: CallbackContract, is_array: bool, length: u32) -> (r: Result<usize, SinkReplyError>)
    requires
        c.output_count < usize::MAX,
    ensures
        !is_array ==> r == Err::<usize, SinkReplyError>(SinkReplyError::NotArray),
        is_array && length != c.output_count + spec_prefix(c.return_kind)
            ==> r == Err::<usize, SinkReplyError>(SinkReplyError::WrongLength),
        is_array && length == c.output_count + spec_prefix(c.return_kind)
            ==> r == Ok::<usize, SinkReplyError>(spec_prefix(c.return_kind)),
{
    if !is_array {
        return Err(SinkReplyError::NotArray);
    }
    let prefix: usize = match c.return_kind {
        CallbackReturnKind::Void => 0,
        _ => 1,
    };
    if length as usize != c.output_count + prefix {
        return Err(SinkReplyError::WrongLength);
    }
    Ok(prefix)
}

/// The array element that holds output `index` of an accepted reply.
pub fn sink_output_element(c: CallbackContract, length: u32, index: usize) -> (r: u32)
    requires
        index < c.output_count,
        length == c.output_count + spec_prefix(c.return_kind),
    ensures
        r == index + spec_prefix(c.return_kind),
        r < length,
{
    let prefix: usize = match c.return_kind {
        CallbackReturnKind::Void => 0,
        _ => 1,
    };
    (index + prefix) as u32
}

/// In an accepted array reply the outputs take distinct slots after the
/// leading one, inside the array, and together with it fill the array.
pub proof fn lemma_reply_slots(c: CallbackContract, length: u32, i: usize, j: usize)
    requires
        length == c.output_count + spec_prefix(c.return_kind),
        i < c.output_count,
        j < c.output_count,
        i != j,
    ensures
        spec_prefix(c.return_kind) <= i + spec_prefix(c.return_kind) < length,
        i + spec_prefix(c.return_kind) != j + spec_prefix(c.return_kind),
        spec_prefix(c.return_kind) + c.output_count == length,
{
}

/// A callback without outputs never needs an array, and one with outputs
/// always does.
pub proof fn lemma_array_iff_outputs(c: CallbackContract)
    ensures
        (spec_sink_reply_shape(c) is Array) <==> c.output_count > 0,
{
}


/// `RPC_E_WRONG_THREAD`: a sink called off the thread that created it.
pub const RPC_E_WRONG_THREAD: i32 = -2147417842i32;

/// `E_FAIL`: the JavaScript callback failed.
pub const E_FAIL: i32 = -2147467259i32;

/// Why a COM object could not be created.
#[derive(Clone, Copy, Debug, PartialEq, Eq, Structural)]
pub enum ComObjectError {
    /// A COM object needs at least one interface.
    NoInterfaces,
}

/// How a COM object is built from its interfaces.
#[derive(Clone, Copy, Debug, PartialEq, Eq, Structural)]
pub enum ComObjectFactory {
    /// An object implementing every interface; callbacks receive the IID.
    Object,
    /// A sink implementing the first interface only.
    Sink,
}

/// How a COM object with `interface_count` interfaces is built: refused
/// without interfaces; a full object when the callback receives the IID,
/// a sink for the first interface otherwise.
pub fn com_object_factory(interface_count: usize, include_iid: bool) -> (r: Result<ComObjectFactory, ComObjectError>)
    ensures
        interface_count == 0 ==> r == Err::<ComObjectFactory, ComObjectError>(ComObjectError::NoInterfaces),
        interface_count > 0 && include_iid ==> r == Ok::<ComObjectFactory, ComObjectError>(ComObjectFactory::Object),
        interface_count > 0 && !include_iid ==> r == Ok::<ComObjectFactory, ComObjectError>(ComObjectFactory::Sink),
{
    if interface_count == 0 {
        Err(ComObjectError::NoInterfaces)
    } else if include_iid {
        Ok(ComObjectFactory::Object)
    } else {
        Ok(ComObjectFactory::Sink)
    }
}

/// What a sink callback does when COM calls it: refuse with
/// `RPC_E_WRONG_THREAD` off its owner thread, otherwise call JavaScript.
pub fn sink_callback_guard(on_owner_thread: bool) -> (r: Option<i32>)
    ensures
        on_owner_thread ==> r is None,
        !on_owner_thread ==> r == Some(RPC_E_WRONG_THREAD),
{
    if on_owner_thread { None } else { Some(RPC_E_WRONG_THREAD) }
}

/// The HRESULT a sink returns to COM: the one its JavaScript reply gave,
/// or `E_FAIL` when calling JavaScript or reading the reply failed.
pub fn sink_callback_hresult(reply: Option<i32>) -> (r: i32)
    ensures
        reply matches Some(h) ==> r == h,
        reply is None ==> r == E_FAIL,
{
    match reply {
        Some(h) => h,
        None => E_FAIL,
    }
}

/// One argument handed to a JavaScript sink callback.
#[derive(Clone, Copy, Debug, PartialEq, Eq, Structural)]
pub enum SinkArgument {
    /// The IID of the interface that was called, as text.
    Iid,
    /// The vtable slot that was called.
    Slot,
    /// The native argument with this index.
    Value(usize),
}

/// The arguments of a sink callback in order: the IID (when included), the
/// slot, then each native argument.
pub open spec fn spec_sink_arguments(include_iid: bool, value_count: nat) -> Seq<SinkArgument> {
    let values = Seq::new(value_count, |i: int| SinkArgument::Value(i as usize));
    if include_iid { seq![SinkArgument::Iid, SinkArgument::Slot] + values } else { seq![SinkArgument::Slot] + values }
}

/// The arguments of a sink callback in order.
pub fn sink_callback_arguments(include_iid: bool, value_count: usize) -> (r: Vec<SinkArgument>)
    ensures
        r@ == spec_sink_arguments(include_iid, value_count as nat),
{
    let mut args: Vec<SinkArgument> = Vec::new();
    if include_iid {
        args.push(SinkArgument::Iid);
    }
    args.push(SinkArgument::Slot);
    let ghost head = args@;
    let mut i: usize = 0;
    while i < value_count
        invariant
            0 <= i <= value_count,
            head == (if include_iid { seq![SinkArgument::Iid, SinkArgument::Slot] } else { seq![SinkArgument::Slot] }),
            args@ == head + Seq::new(i as nat, |k: int| SinkArgument::Value(k as usize)),
        decreases value_count - i,
    {
        args.push(SinkArgument::Value(i));
        assert(Seq::new((i + 1) as nat, |k: int| SinkArgument::Value(k as usize))
            =~= Seq::new(i as nat, |k: int| SinkArgument::Value(k as usize)).push(SinkArgument::Value(i)));
        i = i + 1;
    }
    args
}

/// The reply to a callback with outputs is an array led by one slot for the
/// HRESULT or the return value, and by none for a void callback: the
/// outputs of a void callback start at index 0, those of the others at 1.
/// A callback without outputs never replies with an array.
pub proof fn lemma_reply_prefix_counts_leading_slot(c: CallbackContract)
    ensures
        c.output_count > 0 && c.return_kind == CallbackReturnKind::Void
            ==> spec_sink_reply_shape(c) == (SinkReplyShape::Array { prefix: 0 }),
        c.output_count > 0 && c.return_kind != CallbackReturnKind::Void
            ==> spec_sink_reply_shape(c) == (SinkReplyShape::Array { prefix: 1 }),
        c.output_count > 0 ==> spec_sink_reply_shape(c) == (SinkReplyShape::Array { prefix: spec_prefix(c.return_kind) }),
        c.output_count == 0 ==> !(spec_sink_reply_shape(c) is Array),
        c.return_kind == CallbackReturnKind::Void ==> spec_prefix(c.return_kind) == 0,
        c.return_kind != CallbackReturnKind::Void ==> spec_prefix(c.return_kind) == 1,
{
}

} // verus!
