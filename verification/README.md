# gpgpu

A general purpose GPU toolkit built on wgpu and winit, with a verified core.

`src/` is the library, checked by Verus: polynomials and plane points,
binomial weights of Bezier curves, font faces (parsing a face's tables,
metrics, properties, code points and unicode blocks from its bytes, the
ordering and filtering of faces, face listings and parameter sheets), the
names and counts of window events, the dispatch of events to handlers and
the control flow that follows, the configuration, and the tables of adapter
limits, features and texture formats (every format by name, in name
order, with what wgpu says of it, and the letters of its usages and
flags). Calls into ttf-parser, wgpu, unicode-blocks and std that the
library makes stand behind small trusted wrappers whose contracts are
stated in their doc comments.

`app/` is the program side: reading configuration and font files, the winit
event loop, rasterizing, floating-point geometry, querying wgpu for its
adapters, and printing tables.

`tests/` runs the library with the real outside crates linked.
