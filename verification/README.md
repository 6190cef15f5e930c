# maxim_controls

Code generation for the controls of a node in the maxim compiler, verified
with Verus.

For every kind of control the compiler emits a family of functions: one per
lifecycle stage (construct, update, destroy), one per lifecycle stage of the
control's user interface when the target includes it, and a getter and a
setter for each field. Other generated code reaches them through calls built
by `build_field_get`, `build_field_set`, `build_lifecycle_call` and
`build_ui_lifecycle_call`.

The library describes this code as plain values (`ir::IrModule`): functions
with a name, the struct types their pointer parameters point to, and a body of
instructions. The proofs cover the names (no two control functions share
one), the lookup-or-declare discipline by name, the parameter types of every
control function, which functions building a control adds or changes, the
bodies of getters and setters, and the order in which the optimiser visits
functions.

Layout:

- `src/control.rs`: control types, fields, lifecycle stages, targets.
- `src/names.rs`: symbol names and their injectivity.
- `src/ir.rs`: the module, its functions, instructions and the builder.
- `src/controls.rs`: parameter types, declaring, calling and defining control
  functions, and the `Control` trait.
- `src/optimize.rs`: walking a module's functions and the optimisation plan.
- `app/`: the program, and the emission of a planned module as an LLVM module
  through inkwell.
