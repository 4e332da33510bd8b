# bug_tracker

A small bug tracker: accounts with roles, projects, and bug reports that
admins hand to developers.

- `src/` is the verified library. It decides everything the service decides:
  role checks and the `Authorization` header (`auth`), signed tokens
  (`token`), password salting and
  bcrypt checks (`password`), account ids (`ids`), sign-in and registration
  (`users`), bug submissions, changes and assignment (`bugs`), projects and
  membership (`projects`), and the answer each outcome gets (`reply`).
  Proof functions in `bugs`, `projects`, `users` and `token` state what changes
  keep, that a registered account can sign in, and that a token names the
  account it was issued for.
- `app/` is the HTTP service around it: actix-web routes, SQLite queries with
  sqlx, and Tera templates.
- `tests/` exercises the library on concrete values.
