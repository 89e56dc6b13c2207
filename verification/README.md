# databend_common

Verified core logic of a distributed query engine and its meta service,
written in Verus: every public function in `src/` carries a contract that
Verus proves, and every function in `src/` is verified.

- `data_type`, `type_coercion`, `coercion_laws`: data types and the rules
  that pick the common type of two or more types, with their laws.
- `error_code`, `app_error`, `meta_storage_errors`, `meta_error`: the errors
  of the meta service and the error codes they become.
- `share`, `kv_api_key`, `share_api_keys`: share metadata, grants and
  accounts, and the keys they are stored under, with round-trip laws.
- `meta_client`: the decisions of the meta service client.
- `pipe`, `fragments`, `scatters`, `flight_scatter`, `hash_join`:
  pipelines, how reads are split among nodes, where data moves between
  nodes, which node a row goes to, and mark joins.
- `bind_context`, `optimizer_property`, `optimizer_rules`, `planner`,
  `remote_expr`, `expr_display`, `expr_rpn`, `sql_hint`: the binder's scopes, optimizer
  properties and rules, plan pieces, expressions sent between nodes, the reverse Polish form
  of SQL expressions, and
  how types, domains and expressions are printed.
- `hive`, `stage_files`, `cache_manager`, `text`: table locations, stage
  file listings, caches, and text helpers.
- `mysql_writer`, `clickhouse_handler`, `format_source`,
  `aggregator_state`: the decisions of the MySQL and ClickHouse handlers,
  the state machine of the source that reads uploaded data, and the
  group-by table for short keys.

`app/` holds the glue that Verus does not see (clock and `chrono`
conversions, the text of literals); `tests/` exercises the library on concrete values.
