# congen

Typed configuration changes. A `Configuration` has a `CongenChange`. A change is built from
a dotted field path and a verb (`set`, `unset`, `use-default`, and the list verbs `append`,
`update`, `remove`, `empty`), and changes can be merged and applied. `Description`s say which
fields can be changed and how; the clap bridge turns them into subcommands.

## Layout

- `src/`: the library, verified with Verus.
  - `config.rs`: the two traits and their spec functions.
  - `primitives.rs`, `option.rs`, `lists.rs`, `value_enum.rs`: the implementations for
    `bool`, `String`, `u32`, `Option<T>`, `Vec<T>` and value enums.
  - `description.rs`: descriptions, path validity and actionable fields.
  - `composite.rs`: what a derived struct configuration does at run time (routing a path to
    a field, default errors).
  - `derive_plan.rs`: the decisions of the derive macros (attribute parsing, option types,
    default constructors), over a plain model of the syntax.
  - `clap_bridge.rs`: decoding verbs and building the subcommand tree from a description.
  - `text.rs`: dotted paths and the two string wrappers.
  - `laws.rs`: the laws that relate merging, applying and the empty change.
- `tests/`: tests of the library.
- `app/`: the parts that need clap, thiserror, syn and quote (the clap `Args` impls, error
  types with `Display`, and the code generation of the derives).
