# gemo

A small renderer of convex polygons, with its logic verified by Verus.

- `src/geometry/polygon.rs`: a polygon over any vertex type, split into the
  fan of triangles `(0, i + 1, i + 2)`; laws on the number of triangles, the
  shape of each, the range of the indices and the vertices they cover.
- `src/backends/wgpu/vertex.rs`: vertex buffer layouts (attributes laid end to
  end) and the layout of the renderer's position-and-color vertex.
- `src/backends/wgpu/buffer.rs`: the bytes of the index buffer.
- `src/backends/wgpu/state.rs`: the renderer's decisions: surface format
  choice, resizing, key handling and what to do with each frame.
- `app/`: the window, the GPU calls and the float vertex types, which perform
  what the library decides.
