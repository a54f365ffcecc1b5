# webgpu_worker

A WebGPU renderer that runs in a web worker, split in two:

- `src/` is the verified library: the cube mesh and its geometric laws
  (`cube`), the frame counters behind the stats panel (`frame_stats`), the
  surface extent, the choice of surface format and the handling of each kind
  of acquired surface texture (`surface`), and the name reported for the
  JavaScript global scope (`context`).
- `app/` is the wasm-bindgen handle `WgpuApp` with the GPU objects, the float
  math of the scene (nalgebra-glm matrices, timing, frame rate) and the calls
  into wgpu and the JavaScript environment.
