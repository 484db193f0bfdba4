# ref-server

A JSON API over PostgreSQL (users and their posts) whose request logic is
verified with Verus.

- `src/` is the verified library: which columns `GET /users?fields=...`
  selects and the SQL it runs, the cross-origin policy built from the
  configured origins, the application error and its JSON body, and, for each
  endpoint, a flow from state and event to next state and action that decides
  what to ask the database and what to answer.
- `app/` is the server around it: configuration, logging, the connection pool
  and migrations, and axum handlers that run each flow, performing the
  database call that the flow asks for and handing back what came of it.
- `tests/` runs the library on concrete values.
