# lsp_daemon

The logic of a language-server daemon's symbol identities, caches and workspaces,
written in Verus and proved against its contracts.

- `src/symbol`: symbol kinds and locations, name normalization per language, symbol
  UIDs (plain and version-aware), the `/dep/...` paths of dependency sources.
- `src/universal_cache`: the cacheable LSP methods and their policies, cache keys and
  their storage form, the key builder, per-workspace statistics and their totals,
  symbol clearing, key listings (their filters, orders and pages), open-document
  tracking, and the cache layer's handling of a request as a step function from state
  and event to next state and action (the loop that performs the actions is in `app/`).
- `src/workspace`: workspace configuration and its validation, projects, branches and
  the branch cache, and the results of workspace operations.
- `src/watchdog.rs`: heartbeat ages and health, memory use from a process status line.
- `src/text.rs`, `src/table.rs`: verified text operations and keyed tables.
- `src/external.rs`: the trusted calls into `std`, `regex`, `blake3`, `sha2`,
  `pathdiff` and `serde_json`, each with the contract it is taken at.
- `app/`: the asynchronous and I/O side (document providers over the file system, the
  watchdog task, process checks, status rates and text, event handlers).
- `tests/`: tests of the library on concrete values.
