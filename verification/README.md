# pi_postprocess

Image post-processing for a GPU renderer: colour effects, several blurs, bloom,
distortions, edge detection, masks and copies, chained into one render
schedule per frame.

- `src/` is the library, verified with Verus: which passes a frame renders and
  in which order, how each pass reads and writes (premultiplied source, final
  target or temporary target, nearest-pixel sampling), the pass plans of the
  dual blur and of the bloom built on it, the glitch's age, uniform block
  layout, geometry layouts, the shader source table and the configuration
  enums.
- `app/` is the GPU side: effect parameters held as floats and their uniform
  data, wgpu state (formats, blend states, shaders, pipelines, bind group
  layouts) built from the library's enums, and a per-frame step that turns the
  effect settings into switches and asks the library for its plans.
- `tests/` runs the library on concrete inputs.

What is not here: the drawing layer that records the planned passes into a
command encoder, allocates atlas targets, holds the effect resources and caches
pipelines. `app/` stops at the wgpu state and the plans; it draws no pass.
