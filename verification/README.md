# corpo_metrics

An MCP server, spoken over HTTP with JSON-RPC, that exposes corporate
business metrics (sales, finance, customers, projects, teams, product
health, inventory) to any MCP client.

- `src/` is the verified library: the request head reading and checking
  (`http_engine`), the JSON model (`json`), the JSON-RPC dispatch and the
  routing of tool calls (`server::primitives`), the reports that need no
  floating point (`server::op`), the configuration (`config`) and the text
  helpers (`text`). Every function there has a contract proved by Verus,
  except five small trusted wrappers whose contracts are taken from the
  outside code they call: `text::push_char` (`String::push`) and, in
  `http_engine`, `parse_request_head` (`httparse`), `canonical_reason`,
  `header_name` and `header_value` (`http`).
- `app/` is the program around it: the listener, the file reads, serde,
  and the reports that show amounts and rates with floating point.
- `tests/` runs the library on concrete values.

The server reads `HOST` and `PORT` and serves on that address
(`127.0.0.1:8080` when they are not set, so `cargo run` serves there); the data is
read from `data/dummy/*.json`, the tool listing from
`data/mcp/tools_list.json`.
