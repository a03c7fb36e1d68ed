# wgpu_native

The decisions behind a C interface to a WebGPU implementation (`wgpu-core`), proved with Verus:
how the numbers and descriptions that a C caller hands in become the graphics library's values,
how failures reach the error scopes and callbacks of a device, how limits and features are
chosen, and how the library's version and log levels are read.

- `src/` is the verified library. Each module states its conversions and decisions over spec
  functions and proves them; `native.rs` holds the numbers of the C enumerations.
  - `conv.rs`, `format.rs`: enumerations and plain structures of the C interface.
  - `device.rs`, `resource.rs`, `surface.rs`, `shader.rs`: the descriptions of adapters,
    devices, pipelines, bind groups, buffers, textures, samplers, surfaces and shader modules.
  - `limits.rs`, `features.rs`: limits and optional features.
  - `error.rs`: the stack of error scopes and the text of a failure.
  - `logging.rs`, `utils.rs`: the version number, log levels and string views.
  - `flags.rs`: the flag sets of the graphics library, read through `wgpu-types`.
- `tests/` runs the library on concrete values, against `wgpu-types` where it has the same
  tables.
- `app/` holds what the verified library cannot: conversions to the graphics library's types,
  the walk over chains of `dyn Error`, the callbacks, and the logger.
