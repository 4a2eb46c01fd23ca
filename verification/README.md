# oracle_plugin

The Oracle Database driver plugin for Tabularis, with its logic verified by
Verus.

- `src/` is the verified library: connect-string building and session keys,
  SQL classification and preparation, identifier and literal quoting, the
  JSON-column recovery, DDL and DML generation from the host's requests,
  the shapes of catalog results, execution plans and JSON-RPC responses,
  and method routing. Work that alternates statements with decisions (the
  column read with its pre-12c retry, EXPLAIN PLAN with its PLAN_TABLE
  cleanup, EXPLAIN ANALYZE with its statistics level) is a step function
  from state and outcome to the next statement, proved over whole runs. Every function carries a contract over a
  mathematical model (`Json` for JSON values, `Seq<char>` for text).
- `app/` is the program around it: JSON text in and out (`serde_json`),
  Oracle sessions and statements (`oracle`), and the RPC handlers that run
  the statements the library asks for and hand back their outcomes.
- `tests/` exercises the library on concrete requests and results.
