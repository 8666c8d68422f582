# ckb_block_verifier

The checks on a block of the CKB chain that need no context, proved with Verus.

- `src/` is the verified library. `block_verifier`, `cellbase_verifier` and `duplicate_verifier`
  hold the rules, `types` the plain values they read, `encoding` the calls into `ckb-types`,
  `startup` the decisions at the start of a node, `specs` the scenarios, and `laws` what holds as a
  whole.
- `tests/` runs the library, with `ckb-types` linked.
- `app/` puts the library to work in a node: it converts the types of the node to plain values,
  implements its traits and does its input and output.
