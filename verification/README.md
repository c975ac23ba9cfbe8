# jira_db

A tool that mirrors JIRA projects into local per-project DuckDB databases and
serves them to AI assistants over the Model Context Protocol. The decisions the
tool takes are a library verified with Verus; the program around it is ordinary
Rust.

## Layout

- `src/` — the verified library.
  - `text.rs` — character-level string helpers and their specifications.
  - `json.rs` — the JSON value the library reads and writes.
  - `config.rs` — settings: projects, database location, logging; the laws of
    the project list.
  - `service.rs` — project sync switches, merging fetched projects, sync
    selection, checkpoints and the laws of resumable sync.
  - `jira.rs`, `jira_records.rs` — the JIRA REST client's logic: credentials,
    dates, reading issues and metadata, searches, paging, request bodies,
    retries.
  - `sql.rs`, `saved_queries.rs` — the read-only SQL guard, row limits,
    escaping, saved queries.
  - `schema.rs`, `expanded.rs` — the database schema and the SQL that expands
    issues into columns and readable views.
  - `embeddings.rs` — embedding providers, their configuration and requests.
  - `jsonrpc.rs`, `mcp_config.rs`, `tools.rs` — the MCP server's protocol
    values, configuration and tool decisions.
  - the test-data generator's module — its configuration, prompts and
    answer handling.
  - `report.rs` — the HTML report template.
- `tests/` — tests of the library on concrete values.
- `app/` — the MCP server: command line, configuration file, the JSON-RPC loop
  on standard input and output, DuckDB access and the embedding request.
