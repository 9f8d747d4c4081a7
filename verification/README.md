# sql_servers

The SQL and MySQL front of a time-series database, verified with Verus.

* `src/`: the library. It reads `INSERT` statements out of the syntax tree of
  `sqlparser`, and it makes the decisions behind a MySQL connection: the salt of the
  handshake, who is admitted, which queries are executed, and what is answered.
* `app/`: serving a connection over `opensrv-mysql`, with the query handler, the user
  provider and the other parts of a database plugged in.
* `tests/`: the library at work, on SQL text and on single connections.

What the library takes from `sqlparser`, `rand` and the standard library stands behind
functions marked `external_body` and one `assume_specification`; the comment above each
says what is claimed of the code behind it.
