# bias_core

Type databases and calling-convention models for binary analysis, verified with
Verus.

* `src/cio`: what is known of C types and prototypes, the databases that hold
  it, the types of a program's code and data, and where a database is loaded
  from.
* `src/ir`: types, addresses, address spaces and variables.
* `src/lifter`: calling conventions, where calls pass their values, lifters, and
  how translators are built and cached.
* `src/names.rs`, `src/search.rs`: interned names, and first matches.
* `tests`: the library on concrete values.
* `app`: files, the processors of `fugue`, and the disassembler around the
  library. It is ordinary Rust.

What holds of the library as a whole is stated by the proof functions in
`src/cio/laws.rs`, `src/cio/load.rs`, `src/lifter/laws.rs` and
`src/lifter/builder.rs`.

Functions marked `external_body` call other crates or the standard library.
Their contracts are not proved; each says what it claims of the function that it
calls.
