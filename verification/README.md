# amethyst_renderer effects

Render-pass effects for the gfx graphics backend, with their behaviour
proved by Verus.

- `src/program.rs`: shader program assets, the sources an effect is compiled
  from, and which shader stages are handed to the backend.
- `src/builder.rs`: the effect builder, which collects the pipeline state
  description (globals, constant buffers, textures, vertex buffers, colour
  and depth outputs) and assembles the effect.
- `src/effect.rs`: a built effect: globals and constant buffers found by
  name (in an fnv hash map), the data bound to the pipeline, reloading, and
  retargeting.
- `src/pass.rs`: a compiled pass and its effect.
- `src/shaded.rs`: the shaded pass: its vertex buffer, the bindings its
  shaders read, its outputs, and the meshes it draws.
- `src/state.rs`, `src/gfx_types.rs`: pipeline state values and the gfx
  types that effects carry.
- `app/`: the calls into gfx's factory and encoder that the library's
  decisions lead to, program loading, and the shaded pass as a render pass.
- `tests/`: tests on concrete values.
