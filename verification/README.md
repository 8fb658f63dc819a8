# numeric_array

Fixed-length arrays (`NumericArray<T, N>`) on which arithmetic acts element by
element, with machine-checked contracts.

- `src/array.rs` — the type, its length invariant, construction, `map`/`zip` and
  their moving forms, `shorten`/`lengthen`.
- `src/ops.rs`, `src/assign.rs` — `+ - * / %`, unary `-` and `!`, and the compound
  assignments, with arrays or scalars on the right.
- `src/element.rs`, `src/bounded.rs` — checked, wrapping and saturating arithmetic,
  which num-traits computes for each element (every primitive integer type).
- `src/equality.rs` — `==` and `!=`, element by element.
- `src/access.rs` — slices, indexing and iteration.
- `src/laws.rs` — proofs that relate the operations to one another.
- `app/` — conversion from `generic_array::GenericArray` and the num-traits trait
  impls, on a thin copy of the type.

Two limits of what the contracts can say:

- The elements live in a `Vec<T>` whose length is fixed at `N` by a type invariant,
  in place of `generic_array::GenericArray`. Verus does not accept `GenericArray`
  with its `ArrayLength` bound, nor typenum's length types, and a name for its
  contents could not be generic in the element type. `app/` converts from
  `GenericArray`.
- Iterating over `&mut NumericArray` hands out `core::slice::IterMut`, of which vstd
  has no model, so nothing is stated of that iterator.
