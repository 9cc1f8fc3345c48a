# binaryen

A binding to the Binaryen WebAssembly optimizer, in two parts.

- `src/` is the verified library (Verus). It holds what the binding decides:
  the codegen configuration and its defaults (`config`), the calls that set up
  Binaryen's pass options from a configuration (`options`), the names of the
  optimization passes and the check made on a list of them before a run
  (`passes`), the conversions between Rust strings and the NUL-terminated
  strings of the C interface (`cstring`), and functions known by their address
  (`functions`).
- `app/` is ordinary Rust: the declarations of Binaryen's C functions and the
  `Module` type that owns a Binaryen module, which makes the C calls with what
  the library decided.
