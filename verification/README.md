# onnx_optimizer_rs

An ONNX graph optimizer whose core is verified with Verus.

- `src/` — the verified library:
  - `utils/` — a slot arena with stable `u32` identifiers, name maps,
    the optimizer configuration and its builder, errors, string helpers;
  - `graph/` — tensors, attributes, nodes and the graph with its producer
    and consumer registry; the description of an ONNX model (`proto`) and
    its conversion into a graph (`convert`, `model`); topological order
    along data dependencies, computed with petgraph (`topology`,
    `dependency`);
  - `passes/` — the elimination passes (Identity, single-input Concat,
    identity Transpose), the detection of foldable constants, the pass
    manager; replacing a folded node by its constant is
    `Graph::replace_with_constant`;
  - `executor/` — an executor that caches the topological order, and a
    composer that runs passes to a fixed point with statistics.
- `app/` — reading and writing `.onnx` files with prost, the error type with
  `std::error::Error`, a progress spinner, the floating-point report, and
  the arithmetic of constant folding (`fold_constants`).
- `tests/` — tests of the library.
