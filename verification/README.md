# aiql_core

A query layer that turns natural-language requests into database queries,
written in Verus: the logic is stated in `requires` / `ensures` contracts and
proved.

## Layout

- `src/` — the verified library.
  - `model.rs`: schemas, tables, columns, indexes, foreign keys, plans and results, each with its view.
  - `discovery.rs`: discovery of foreign keys from column names, with its laws
    (existing keys kept, no link added twice, every suggested link present, idempotence,
    added keys aimed at another table's key column).
  - `clauses.rs`, `scoping.rs`, `temporal.rs`: adding a tenant or point-in-time condition to a query's filter.
  - `client.rs`: the decisions of a request (translate, dry run, execute, heal once, dry run and
    execute the healed query) as a state machine; no query is executed before its dry run passes.
  - `context.rs`: the description of a schema given to a language model, pruned for large schemas.
  - `translator.rs`: the instructions given to a model and the reading of its reply, from the
    reply's text (read as JSON through `serde_json`) to the plan.
  - `privacy.rs`: masking of e-mail addresses and card numbers in prompts and JSON results.
  - `crawlers.rs`, `execution.rs`, `healer.rs`, `export.rs`: what the crawlers and engines compute.
  - `text.rs`, `pattern.rs`, `time.rs`, `json.rs`: strings, regular expressions (through `regex`),
    points in time (through `chrono`) and JSON values.
- `tests/` — tests of the library.
- `app/` — the command line, the database and model clients, the terminal view and the C entry points.
