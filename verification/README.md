# fabric_nb

`nb` is a command-line client for Microsoft Fabric notebooks: it lists, creates,
exports, runs, schedules and edits notebooks through the Fabric REST API, and runs
code in Livy sessions on a lakehouse.

The crate is split in two:

- `src/` is the library, written in Verus. The client's decisions on data are
  functions with contracts there: reference parsing, workspace and item lookup,
  the token cache, the responses of long-running operations, the `.ipynb`
  document of a new notebook, reading and editing cells, schedule bodies, session
  and statement states, and the text the listings show. JSON documents are held in
  the library's own `Json` type, whose model is `JsonView`.
- `app/` is the program around it: argument parsing, HTTP calls and the loops that
  wait on them, the Azure CLI, the clock, files, the terminal spinner, printing,
  and the conversion between `serde_json` values (and their JSON text) and the
  library's `Json`.

Laws that span several functions are stated as public proof functions named
`law_*` (for example `json::law_get_after_set`, `cells::law_remove_undoes_insert`,
`encoding::law_base64_encoding_injective`).

The tests under `tests/` exercise the library with the real outside crates linked.
