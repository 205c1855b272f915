# cairo_vm (verified core)

A Verus library for the parts of the Cairo virtual machine that decide rather
than execute:

- `types::layout`, `types::builtins_instance_def`, `types::instance_definitions`:
  the fixed memory layouts and the dynamic layout built from parameters.
- `types::program`: a program's builtins and identifier table.
- `vm::runners::cairo_runner`, `vm::runners::function_runner`: setting up a
  runner with its builtins and segments, finding builtin bases, and resolving a
  function of the main module to its program counter through chains of aliases.
- `vm::runners::pc_resolution`: the specification of that resolution and its
  laws (it does not depend on how far it looks, an alias resolves as its
  destination, and it either ends within the table's length or never).
- `types::errors`, `vm::errors`: the error types and their messages.
- `math_utils`, `test_helpers`: the quadratic-residue test, and assertions on
  run results whose preconditions state the accepted outcome.

`app/` holds what needs serde, thiserror or the file system: reading layout
parameters from JSON, the serialisable layout, `Display` for program errors,
conversions from `num_bigint::BigUint`, and the `assert_vm_result!` macro.

Running a Cairo function is not part of the library. Running one means
writing its arguments to memory, setting up its call frame, executing
instructions and hints until its end, and checking the run's security. All of
that is the virtual machine's work, which this crate neither contains nor can
depend on. What a run decides before the VM starts is in the library:
`CairoRunner::entrypoint_pc` turns an entrypoint, given by name or by pc, into
the pc the run starts at.
