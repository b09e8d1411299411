# telega_checker

Finds out whether a Telegram account is registered with the call infrastructure
of the Telega client. Serves a Telegram bot, an HTTP API and a daily scan of
group chats.

- `src/` is the verified library. It holds every decision of the program, and
  the texts of its messages, answers and failures. What needs the network, the
  database or the file system is a step that the library names; whoever drives
  it does that and hands the outcome to `resume`.
- `app/` is the program around it: `main`, Telegram, HTTP, SQLite, the caches and
  the scheduler.
- `tests/` runs the library, its SQL statements among it against SQLite.

## Configuration

| Variable | Default |
|---|---|
| `TELOXIDE_TOKEN` | required |
| `DATABASE_URL` | required |
| `API_BEARER_TOKEN` | required |
| `ADMIN_ID` | required |
| `APPLICATION_KEY` | `CHKIPMKGDIHBABABA` |
| `API_PORT` | `8080` |
| `DATABASE_MAX_CONNECTIONS` | `5` |
| `RUST_LOG` | `info` |

Lookups are recorded under a pseudonym of who asked, keyed with the bot token.

`takecell`, which `teloxide` needs, is held at 0.1.1: the next version wants a
newer compiler.

## Lookups

A lookup asks the in-memory cache, then the database, then the API; what the API
finds is persisted. An expired session is refreshed once, by whoever gets to it
first, and a rate limit is waited out with delays of 1, 2, 4 and 8 seconds.

## HTTP API

`GET /api/check/{telegram_id}` with `Authorization: Bearer <API_BEARER_TOKEN>`
answers `{"telegram_id": ..., "is_compromised": ...}`, or `{"error": ...}` with
status 400, 401 or 500.
