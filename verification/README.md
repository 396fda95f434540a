# bevy_splat

GPU-instanced splat (point cloud) rendering for Bevy, split in two:

- `src/` — the verified core (Verus). Every value the GPU reads is held as
  the 32-bit word that is uploaded (an `f32` as its IEEE-754 bit pattern),
  and every decision of the render path is a function with a contract:
  - `splat`, `point_cloud`: points, splat assets, capacity hints, the
    packed instance words and bytes;
  - `splat_material`, `gpu_material`: material settings and the 80-byte
    uniform;
  - `extract`: asset-change tracking and per-entity extraction;
  - `buffers`: instance-buffer reuse and growth (64 minimum, +25%);
  - `pipeline`, `queue`: pipeline layout, blending and depth writes, and
    which views a splat is drawn in;
  - `quad`, `material`: the shared quad and the placeholder point-cloud mesh;
  - `picking`: the press / move / release stroke decisions;
  - `bytes`: the one call into `bytemuck`.
  Laws (`law_*` proof functions) state what holds across calls: uploads fit
  their buffer, buffers never shrink, a capacity hint avoids reallocation,
  a changed asset is re-uploaded, strokes are well nested, the blend table.
- `app/` — the Bevy plugin: ECS systems, render-world plumbing, asset and
  component types with Bevy derives, and the floating-point bounds.
