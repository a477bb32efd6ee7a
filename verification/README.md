# guardgen_mcp

An MCP server that exposes GuardGen's UUID-based C/C++ include-guard generator
as the `generate_include_guard` tool.

- `src/` is the verified library: the tool's argument model and defaults
  (`arguments.rs`), the lexical rules for the macro prefix and suffix
  (`identifier.rs`), and the invalid-parameters errors (`error.rs`). Its
  contracts say exactly which argument sets are refused and with which
  message, and proof functions show that accepted arguments always name a
  valid C macro.
- `app/` is the server around it: JSON decoding with serde, the JSON Schema,
  the GuardGen generator kept for the session, and the STDIO transport of
  `rmcp`.
- `tests/` runs the library on concrete inputs.
