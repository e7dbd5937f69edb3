# flashmla

Checked parameters, workspace sizing and tensor validation for the FlashMLA sparse and dense
attention kernels. The library under `src/` is verified with Verus: every function states what it
returns, which inputs it accepts, and which error comes first on the others.

## Layout

- `src/arch.rs`, `src/device.rs`: supported GPU architectures and device queries.
- `src/sys.rs`, `src/convert.rs`: value types of the C ABI and checked conversions to them.
- `src/sparse_prefill.rs`, `src/sparse_decode.rs`, `src/dense_decode.rs`: shapes, strides, plan
  metadata and the parameter blocks of kernel calls.
- `src/error.rs`, `src/text.rs`, `src/workspace.rs`: errors, message text and byte sizes.
- `src/candle_flashmla/`: the same operations on Candle tensors. `tensor_api.rs` holds everything
  that is used of `candle-core`, `half` and `float8`; `tensor.rs` describes and checks tensors;
  `*_plan.rs` sizes, allocates and checks workspaces; `*_launch.rs` prepares launches and hands
  out their results; `packing.rs` says how dense decode packs query heads, and `padding.rs` how
  sparse prefill and sparse decode pad them to the head counts of the kernels and slice the
  padding off again.
- `src/build/`: which architecture, sources and compiler flags the native build uses.
- `tests/`: the library on concrete values, with CPU tensors.
- `app/`: the calls of the native kernels, CUDA streams and addresses, and the native build.

Softmax scales cross the library as the bit patterns of single-precision numbers, and device
pointers as integers: nothing in `src/` computes with either.
