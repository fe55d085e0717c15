# rsc_lsp

The editor-facing layer of the RustScript toolchain and the self-contained
helpers of its lowering pass, as a library verified with Verus.

- `src/` — the library:
  - `builtin_hover` — hover texts of builtin identifiers, methods and keywords;
  - `name_map`, `rustdoc_translator` — Rust names, type strings, IR types and
    rustdoc items shown in RustScript syntax;
  - `completions` — keyword, member, struct, import completions and signature
    help, and the resolvers that pick among them at the cursor;
  - `position_map` — `.rts`/`.rs` position, range and URI mapping;
  - `ra_proxy` — the rust-analyzer wire protocol: framing, header reading,
    pending requests;
  - `lower`, `generator`, `stdlib_deps`, `use_collector`, `ast`, `rust_ir` —
    type resolution, decorators and derives, generator state machines and
    locals, and the dependency and `use` scans, over the shapes of RustScript
    syntax and Rust IR they read;
  - `rustdoc`, `assoc`, `text`, `error` — rustdoc data and caches,
    association lists, character-sequence helpers, errors.
- `tests/` — tests of the library.
- `app/` — the rust-analyzer subprocess (process, pipes, reader thread), the
  `thiserror` form of the error type, and conversions to `lsp_types`.

## What is not here

- The lowering of whole modules, functions, statements, variable
  declarations, destructuring, utility-type items and function signatures
  (`Transform::lower_module`, `lower_fn`, `lower_stmt`, `lower_var_decl`,
  `lower_destructure`, `lower_utility_type`, `register_fn_signature` and the
  rest of `Transform`) is left out: it is interwoven with the type checker
  crate, the lowering context, ownership and derive inference and the
  expression and async lowering, none of which this library holds. What of
  it does not depend on them stands here: the generator items, the
  utility-type fields, the generator locals, the `use` scan, decorators,
  derives and type resolution.
- The server loop of the language server is left out with its module.
