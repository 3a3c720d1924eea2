# microsandbox

The decision logic of the microsandbox sandbox manager (its configuration,
image references and registry credentials, image layers, the sandbox server's
JSON-RPC and MCP interface, authentication, portal port assignments, the
in-sandbox portal's REPL and command runner, and the `msb` command line),
written in Verus and proved against its contracts.

## Layout

- `src/` — the verified library. Every public function states in `ensures`
  what it returns; laws that relate several functions are public proof
  functions (named `lemma_*`) next to the functions they speak of.
  - `config.rs`, `home.rs`, `toolchain.rs`, `orchestra.rs`, `supervisor.rs`,
    `cgroup.rs`, `cli.rs` — project configuration, installed sandboxes,
    toolchain files, running sandboxes and the `msb` commands.
  - `oci/` — image references, registry hosts and credentials, platform
    selection, layer downloads and layer extraction rules.
  - `server/` — the sandbox server: errors and their HTTP responses,
    API keys and namespaces, JSON-RPC dispatch, MCP tools and prompts,
    starting, stopping and polling sandboxes, and its own process.
  - `port.rs` — the two-way assignment of portal ports to sandboxes.
  - `portal/` — the portal inside a sandbox: REPL engines and commands.
  - `text.rs` — string functions with exact specifications.
- `tests/` — tests of the library on concrete values.
- `app/` — the `msbserver` program and the file, process and network work
  around the library: PID and key files, the port file, the YAML project
  file, the toolchain's files, control groups, and the status table (whose
  CPU figures are floating-point).

Calls into outside crates (`oci-client`, `serde_json`, `chrono`, `rand`) and
into `std` functions that Verus does not specify go through small trusted
wrappers whose doc comments say what their contracts claim.
