# rusty_d3d12

Type-safe descriptions of the Direct3D 12 and DXGI plain-data structures, written in Verus
and proved against their contracts: enumerations and bit flags, resource, view, pipeline and
root-signature descriptions, resource barriers, descriptor-handle arithmetic, byte-count
arithmetic and alignment, and the pure part of uploading subresource data (copying rows into
a mapped buffer and planning the copies that follow).

## Layout

- `src/` — the verified library.
  - `enums.rs` — enumerations and bit-flag sets.
  - `utils.rs` — `ByteCount` and alignment.
  - `error.rs` — result codes, `DxError` and its text, the decision of a checked call and of an
    adapter enumeration step.
  - `resource.rs`, `views.rs`, `srv.rs`, `uav.rs`, `dsv.rs`, `pipeline.rs`,
    `pipeline_stream.rs`, `root_signature.rs`, `swapchain.rs`, `features.rs` — descriptions,
    each with getters and setters in two forms: `with_*(self, ..) -> Self` to build a value and
    `set_*(&mut self, ..) -> &mut Self` to change one in place; their contracts state the field
    they read or replace.
  - `barrier.rs` — resource barriers and texture-copy locations.
  - `descriptors.rs` — descriptor handles and the render-target handle array.
  - `upload.rs` — `memcpy_subresource` and `update_subresources`.
  - `shader.rs` — HLSL compilation through `hassle-rs`.
- `tests/` — tests on concrete values.
- `app/` — ordinary Rust around the library: display of errors and adapter descriptions,
  the serde form of byte counts, and `f32` accessors for the fields kept as bit patterns.

Floating-point fields are stored as their IEEE 754 bit patterns (`*_bits` accessors), since
floating point cannot be reasoned about in the verified library.
