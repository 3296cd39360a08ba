# path-kit

Path construction, boolean operations, measuring and stroking on top of the
native PathKit (Skia PathOps) engine.

- `src/` is the verified library: the enums shared with the engine and their
  native numbers, the fill-rule bit algebra, the decoding of path-iterator
  steps, the matrix type bits and coefficient indices, and the small rules
  that the wrappers apply before calling the engine (dash patterns, point
  indices). Each function carries its contract; the laws are public proof
  functions next to the types they speak of.
- `app/` holds the handles to the native engine (`Path`, `PathBuilder`,
  `Matrix`, `RRect`, `PathMeasure`, `Paint`, `StrokeRec`, `OpBuilder`, path
  effects) and the `f32` geometry types. It declares the engine's entry
  points through a `cxx` bridge and uses the library for every rule and
  numeric layout.
- `tests/` runs the library on concrete values.
