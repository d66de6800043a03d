# itchat

The rules of the ItChat chat server, written in Verus and proved against
their contracts.

- `src/utils/` – permissions (bit sets, the computation of what a user may do
  on a server and in a channel), badges, snowflake ids, error answers, email
  address normal forms, the verification mail, migrations, random tokens and
  decimal text.
- `src/structures/` – users, servers, members, roles, channels, messages,
  sessions, invites, bots and attachments, and the SQL statements that store
  them.
- `src/routes/` – the decisions of the HTTP routes: friend requests, blocks,
  member, role, channel and server edits, and their limits.
- `app/` – plain Rust around the library: the database, JSON, HTTP error
  answers, the route handlers' I/O, the mail service and the TLS certificate.
- `tests/` – tests of the library on concrete values.
