# zero2prod

A newsletter service: visitors subscribe with a name and an email address.

- `src/` is the verified library: the rules for subscriber names and email
  addresses (`domain`), the decisions of the subscription endpoint
  (`routes`), the environment names of the configuration (`configuration`),
  the logger's level rule (`logging`) and the shape of the requests sent to
  the email delivery service (`email_client`).
- `app/` is the program around it: configuration loading, the actix-web
  server, the Postgres queries, the HTTP client and telemetry.
- `tests/` runs the library on concrete values.
