# pe_vm

Models of the Windows API that a 32-bit PE emulator offers its guest code,
written in Verus: every routine of the library states its behaviour in
`requires` / `ensures` clauses over mathematical models (sequences of bytes
for guest memory, maps for the registry, sequences for the import table and
the COM objects), and Verus proves the code against them.

## Layout

- `src/vm/` — the machine the routines work on: guest memory with its
  little-endian reads and writes, a bump heap whose blocks carry a length
  header, the import table with its dynamic thunks, and the state of OLE
  automation (type libraries and type infos handed out).
- `src/vm/windows/` — the DLLs: `ntdll`, `ole32`, `oleaut32` (BSTRs,
  VARIANTs, type library parsing, `ITypeLib` / `ITypeInfo`, the argument
  building of `ITypeInfo::Invoke`, OLE dates), `msvcr40d` (strings,
  `sprintf`, the decisions of the stdio routines) and the export tables of
  `msvcr100`. `dispatch` runs a registered import from its routine tag,
  with each routine's contract (`*_effect`) as its own.
- `src/registry/` — the registry: keys and values, the store with its
  merge modes, `.reg` file parsing and decoding, and YAML documents.
- `src/*/laws.rs` and the `law_*` proof functions — properties that span
  several routines (a value reads back as it was set, a BSTR reads back as
  it was allocated, a date comes back from its day count, …), and
  `well_formed_model`, which every registry's model satisfies.
- `app/` — host-side glue: file reading, YAML parsing with `serde_yaml`,
  the floating-point halves of the OLE date conversions, and the drivers
  that run the guest CPU and host files for the routines that need them.
- `tests/` — tests of the library on concrete values.
