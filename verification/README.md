# semantic_browser

A semantic browser for AI agents: it reads the structured data of web pages
(title, microdata, JSON-LD, metadata, main text), keeps what it learns in an RDF
knowledge graph, and serves it through an HTTP API and a Model Context Protocol
server. Its decision logic is written in Verus and verified.

## Layout

- `src/` — the verified library.
  - `security` — the checks that admit HTML and SPARQL input.
  - `parser`, `page_meta`, `annotator` — what a page holds, read with `scraper`.
  - `form_analyzer`, `form_interaction` — the forms of a page and what fills them.
  - `kg`, `kg_integration` — the knowledge graph (an `oxigraph` store) and the
    triples that describe a browsed page.
  - `api`, `auth`, `auth_manager`, `api_client`, `mcp` — rate limiting, client
    addresses, JWT claims and roles, sessions and OAuth2, the API client's URLs
    and retries, and the routing and tool list of the MCP server.
  - `llm` — messages, tools, the agent's turn logic, what a provider's reply
    and stream events become, the server-sent-event reader, and the workflow engine (a state machine whose tool calls and sleeps
    the caller performs).
  - `strmap`, `text`, `json` — string maps, text helpers, and what the JSON
    reader makes of a text.
- `tests/` — tests of the library.
- `app/` — the program around it: the HTTP server (axum), the MCP server on
  standard input and output, the HTTP clients (reqwest), JWT signing
  (jsonwebtoken), metrics (prometheus), and the float scores of form fields.

## Outside code

Calls into `scraper`, `oxigraph`, `regex`, `serde_json`, `url` and `urlencoding`
stand behind trusted wrappers in `src/`, each with a contract that
states what the call returns or names its result.
