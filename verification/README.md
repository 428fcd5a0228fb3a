# secret_santa

The logic of a Secret Santa service: users register and log in, create and
join groups, hand admin rights around, and an admin draws who gives a gift to
whom.

- `src/` is the verified library (Verus).
  - `status` — the status messages operations end with.
  - `guard` — the checks an operation asks of the store, one at a time, before
    it writes; the law that the first failing check decides the refusal.
  - `crud` — each operation's checks, the action it then performs, and what
    its write reports.
  - `policy` — per operation, exactly which answers let it write.
  - `credentials` — registration rules, password hashes, session tokens.
  - `draw` — the draw, proved to give every member one recipient among the
    members and never themselves.
  - `store` — a model of the users, groups and memberships the operations run
    against, with the laws that span calls: a refusal changes nothing,
    leaving undoes joining, stepping down undoes being made admin, no group
    loses its last admin, the draw happens once and gives distinct recipients.
  - `routes` — the HTTP status and body each outcome is answered with.
- `app/` is the server around it: tide routes, JSON, and the SQLite queries
  (sqlx) that answer the library's questions and perform its writes.
- `tests/` runs the library on concrete cases.
