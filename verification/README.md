# felico

Pieces of the Felico programming-language toolchain, written in Verus with their
behaviour stated in contracts and proved.

- `src/text.rs`: text helpers (decimal rendering, padding, UTF-8 offsets, line counts).
- `src/base`: errors, source files and excerpts, file locations, literal values.
- `src/lexer`: tokens and the lexer; `lex_outcome` states what each read gives.
- `src/parser`: the recursive-descent parser; `grammar.rs` states the grammar that the
  parser follows, and string literals are unescaped as `string_literal.rs` states.
- `src/ast`: the syntax tree and its printed form.
- `src/bytecode`: slots, operands, op codes, instructions, modules and their builder.
- `src/arena`: a typed arena with generation-checked handles.
- `src/compiler`: the compiler's model: spans with line and column numbers, qualified
  names, tokens, types and their factory, assignability, module manifests, and the
  parts of C code generation that decide names, types and operators.
- `src/compiler/frontend/ast`: the compiler's syntax tree and its printer; `print_ast.rs`
  states the labelled tree drawn for each node, and `termtree` draws it.
- `src/compiler/frontend/resolve`: lexical scopes, the checks of calls once their parts
  are resolved, and the diagnostics they give.
- `src/compiler/interpret`: stack frames, panics, environments of variables, the table of
  core definitions, and the decisions on calls (stack space, arity) and loops (fuel).
- `app`: what talks to the outside world: fetching and running the Zig C compiler,
  reading source files, showing source files to `miette`, and the interpreter's
  operations on floating-point values.

Laws of the library are public proof functions named `law_*`.
