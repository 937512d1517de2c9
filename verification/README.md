# axum_template

A user-and-authentication web service whose logic is verified with Verus.

- `src/` — the verified library: roles and their text form (`models::users`),
  password hashing (`services::auth::hashing`, SHA-512 + hex), user records and
  registration, repository row and page-parameter preparation
  (`repositories`), the decisions of the HTTP handlers (`handlers`), error
  statuses (`errors`) and the role guard (`middlewares::role`).
- `app/` — the axum program around it: environment, Postgres pool, SQL,
  routes, OpenAPI/Swagger, and serde/sqlx/utoipa copies of the library types.
- `tests/` — tests of the library on concrete values.
