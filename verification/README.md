# wasm_ui

A small library for building user interfaces on the web: widgets are laid out
with a box model and flex layout, like Flutter and CSS flexbox, and painted on
a WebGL canvas.

The crate is written in Verus. `src/` is the verified core:

- `math`: vectors of two, three and four components, generic over the
  component type, with component-wise arithmetic, dot products, smallest and
  largest components and conversions; each operation is specified by what the
  component type's own operator does, and holds exactly for the integer types.
- `tree`: the arena of laid-out boxes, addressed by the ids that insertion
  hands out.
- `flex`: the axis, alignment and size settings of flex containers, and the
  reading and building of `(x, y)` pairs along the main and cross axes.
- `input`: which keys are held down, and where the mouse is.
- `mesh`: the stack of transforms of an object and their product.
- `test_util`: the assertion that two slices are equal, proved at each call,
  and a comparison of two slices that reports where they first differ.
- `backend`: the trait of a rendering target.

`app/` holds what stays in plain Rust: the floating-point layout of the
widgets (containers, flex and columns, colours, borders, rectangles, 4x4
matrices), the WebGL drivers, and the demo application.
