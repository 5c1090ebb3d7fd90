# finite-wasm

Stack usage analysis of WebAssembly modules. `instrument::Module::new` reads a module and computes,
for each function in its code section, the size of the stack frame of the function: what its
activation takes up and the maximum that its operands take up at any given time. An
`AnalysisConfig` says how large values and activations are.

- `src/` is the library. It is verified with Verus, except for the calls into `wasmparser`: the
  functions of `reader` that make them are trusted to do what their contracts say.
  - `instrument` analyses a module, `visitor` the body of a function, `operands` keeps account of
    the operand stack of a single control frame.
  - `model` says what the analysis of a function computes, `operator` what each instruction does to
    the operand stack.
  - `laws` and `module_laws` state what holds of the analysis as a whole. Most of all: the size of
    a function is the largest size that is reached at any point of the function.
  - `reader` is where the library calls `wasmparser`. What it relies on is written next to each
    call.
- `tests/` runs the library on modules in the binary format and on its parts.
- `app/` holds the errors with their standard traits, and a harness that runs tests.
