# libvktypes

A library that makes talking to the GPU through Vulkan less verbose and safer.

The crate is split in two:

- `src/` is the verified library. It holds the decisions: where buffers and images are
  placed inside one allocation and how they are aligned, which memory type and which
  hardware device are picked, what a surface supports, how descriptor sets, render passes
  and pipelines are laid out, which driver objects are torn down when a creation step
  fails, and the state machine of a queue submission. Every public function carries a
  contract that Verus proves.
- `app/` makes the driver calls through `ash`, `ash-window` and `winit`, and hands the
  library plain values (handles as `u64`, flags as integers, requirements the driver
  reported).

`tests/` exercises the library on concrete values.
