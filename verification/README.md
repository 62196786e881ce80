# Fantasia

A web server's configuration, verified with Verus.

- `src/` is the verified library:
  - `port`: reading a port number as `str::parse::<u16>` does, and writing it
    as `{}` does; writing and reading back gives the same port.
  - `config`: the settings and their defaults, `augment` (command line
    options over Postgres environment variables over the configuration file),
    and the Postgres URL with its masked form for logs.
  - `pool_options`: the Postgres pool options, sqlx's defaults, and filling
    in a partial `[postgres.options]` table.
  - `args`: refusing a command line with spurious arguments.
- `app/` is the program around it: reading the command line, the TOML file,
  `.env` and the environment, and the axum server with its Postgres pool.
- `tests/` runs the library on concrete values.

Configuration comes from CLI options, environment variables and a TOML file,
in that order of precedence; see the table layout below.

```toml
[fantasia]
host = "localhost"
port = 8000
env_file = ".env"

[postgres]
user = "postgres"
password = "postgres"
host = "localhost"
port = 5432
database = "pgdb"

[postgres.options]
test_before_acquire = true
acquire_timeout_seconds = 10
min_connections = 0
max_connections = 10
max_lifetime_seconds = 180
idle_timeout_seconds = 600
```
