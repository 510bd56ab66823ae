# zero2prod

A newsletter service: readers subscribe, an editor logs in and publishes
issues. The verified library in `src/` holds its logic; `app/` is the server
program around it.

- `src/configurations.rs`: the deployment environment (`local` /
  `production`, read case-insensitively) and the database connection
  parameters derived from the settings.
- `src/domain/subscriber_email.rs`: subscriber e-mail addresses, accepted
  only when the `validator` crate judges them valid.
- `src/frontend.rs`: page data, the alert and navigation styling decisions,
  the password-form hints, and the server-rendered document that embeds the
  page data (escaped so it cannot leave its `<script>` element).
- `src/routes/`: the decisions of the HTTP handlers (login, logout,
  dashboard, password change, newsletter publishing), each as a function from
  what the handler's I/O produced to what it does next.
- `src/tasks.rs`: the log record for a long-running task that ended.
- `app/`: configuration loading, the Postgres pool, Redis sessions, flash
  messages, the Leptos page components and the Actix server.
