# magnetar-provider-wgpu

A GPU compute provider built on `wgpu`, written in Verus.

- `src/words.rs`: 32-bit words and their byte images in either byte order,
  with both round trips proved; the host's byte order is read from
  `u32::from_ne_bytes`.
- `src/kernels.rs`: the host side of the elementwise `add` kernel: operand
  checks, buffer sizes, workgroup counts and the dispatch plan, with the
  coverage of the dispatch and the read-back of the output proved.
- `src/provider.rs`: the provider's state after device discovery, its
  metadata and its health, kept consistent by a type invariant.
- `app/`: device discovery and the GPU work itself (buffers, shader,
  dispatch, read-back), which talk to the graphics drivers through `wgpu`.
