//! Verified core of the dynamic WinRT / classic COM JavaScript binding.
use vstd::prelude::*;

pub mod json;
pub mod raw_layout;
pub mod raw_schema;
pub mod native_descriptor;
pub mod tsfn;
pub mod id_set;
pub mod async_dispatch;
pub mod raw_memory;
pub mod winui_loop;
pub mod js_integer;
pub mod typed_buffer;
pub mod pointer_args;
pub mod pointer_owner;
pub mod sink_callback;
pub mod com_kinds;
pub mod guid;
pub mod native_values;
pub mod malloc;
pub mod native_output;

verus! {
} // verus!
