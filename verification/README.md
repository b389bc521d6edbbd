# dynwinrt_js

The verified core of a Node-API binding for dynamic WinRT and classic COM
calls. The library (`src/`) holds the decisions of the binding, each with a
contract proved by Verus:

- `raw_layout`, `raw_schema`, `native_descriptor`, `json`: raw aggregate
  descriptors (JSON) — size, nesting, recursion and expansion limits, the
  strict by-value schema, and the struct and union layouts they describe.
- `raw_memory`: bounded raw memory views, raw pointer states, external
  resource cleanup and owned COM references for raw calls.
- `typed_buffer`, `pointer_args`, `js_integer`, `guid`, `com_kinds`: the
  JavaScript values accepted as buffers, pointers, strings, integers, GUIDs
  and Automation type names.
- `native_output`, `pointer_owner`, `malloc`, `native_values`: who owns a
  native pointer, whether its owner may still be used and what it frees,
  `IMalloc` blocks, and branded native struct bytes.
- `tsfn`, `async_dispatch`, `id_set`, `winui_loop`, `sink_callback`: the
  lifecycles of thread-safe functions and async promises, the WinUI
  dispatcher loop, and the reply shape of COM sink callbacks.

`app/` is the Node-API and Win32 surface around it: JavaScript classes,
number conversions, allocation and byte copies, and the native calls.
`tests/` exercises the library on concrete values.
