# mtld3d_core

The core of a Direct3D 9 implementation on top of Metal, verified with Verus.

- `dxso`: shader bytecode. `parser` turns tokens into a program, `queries` answers
  what a program uses, `encoding` states what every parsed program satisfies,
  and `stream` what holds of every token stream. `emit` translates
  programs to the Metal shading language; `ff` writes the shaders of the
  fixed-function pipeline.
- `format`, `format_probe`: pixel formats, level sizes and pitches.
- `gamma`: gamma ramps and their lookup tables.
- `fetch4`, `fullscreen_resize`, `gpu_caps`, `level_authority`,
  `staging_coverage`: small state machines behind the device objects.
- `ids`, `content_hash`, `library_index`: cache keys and the cache of shader
  libraries.
- `text`: numerals and lane letters, of which the translated texts are built.

A translation is stated as a text: `vs_source`, `ps_source`, `ff_vs_source` and
`ff_ps_source` say character by character what the emitters return.

The crate trusts `xxhash-rust` for one hash function and `rustc-hash` for the
hasher of one map; the functions that call them carry the contract that is
believed. `app/` renders float literals, which the emitters take as input, warns
of formats without a mapping, and holds the counters that a process shares.
