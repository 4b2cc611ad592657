# custom_draw

Custom GPU draw and compute for a UI renderer: pipeline, texture, buffer
and sampler descriptions, their validation, and the device-independent
work behind a Metal custom draw registry, proved with Verus.

- `src/` is the verified library.
  - `types`, `texture`, `draw`, `error`: descriptions, identifiers and errors.
  - `validate`: checks of render and compute pipeline descriptions.
  - `sizing`, `resources`: mip chains, texture plans, update layouts, buffer sizes.
  - `registry`: slot tables, capture state and resource totals.
  - `keys`, `cache`, `url`, `uniform`: pipeline cache keys and the cache of
    render pipelines, file URLs, uniform buffers.
  - `blend`: the blend equation of each blend mode.
  - `shader`, `locations`: binding checks and plans, vertex input locations.
  - `naga_module`: the shader compiler's module as the library reads it; every
    call into the `naga` crate stands here, behind a trusted contract.
  - `rewrite`, `pipeline`: rewriting a parsed WGSL module for the device and
    the shader stage of creating render and compute pipelines.
- `tests/` runs the library on concrete values.
- `app/` is the Metal side: device objects, descriptors, the registry that
  owns them, and the API's floating point values.
