# layline

Tunnel network connections over HTTP, with a client and a server whose decisions are made in a
library verified by Verus.

A server offers a small HTTP API and connects each session to one destination, fixed on its
command line. A client either listens for local connections and opens a session for each, or
tunnels its standard input and output. Only `GET`, `POST` and `DELETE` are used, with bodies of at
most 1 MiB, so that the API can stand behind proxies, load balancers and CDNs. layline does not
encrypt: use an `https` URL, or tunnel a protocol that encrypts by itself.

## Usage

```
layline server HTTP_LISTEN:PORT TUNNEL_DEST:PORT
layline client LISTEN:PORT https://example.org/layline/
layline proxyclient https://example.org/layline/
```

- `--max-sessions` limits the sessions of a server, or of a client that listens (default 100).
- `--session-timeout` closes sessions that are idle for that many seconds (default 900). A `/recv`
  without incoming data and a `/send` with an empty body do not count as activity.
- `--allow-plaintext` accepts `http` URLs.
- `--client-ip-header` names the header with the address of the client, for the server's log
  (default `X-Forwarded-For`).
- `--log-dest` (server) names a directory for log files; the default is standard error.

## API

| request         | effect                                                                    |
|-----------------|---------------------------------------------------------------------------|
| `GET /create`   | opens a session, answers with its identifier                              |
| `GET /recv`     | answers with bytes from the tunneled connection, waits up to 10 s for them |
| `POST /send`    | writes the body to the tunneled connection                                |
| `DELETE /close` | ends the session                                                          |

All but `/create` name their session in the `X-Layline-Session` header, and are answered with 404
when there is no such session (any more). The client takes a 404 as a clean end of the session,
and any other failure as an error.

## Layout

- `src/`: the verified library. `ident` (session identifiers), `headers` (reading request
  headers), `liveness` (activity and the inactivity watchdog), `reply` (responses), `server`
  (routing, session table, requests), `client` (URL check, session set-up, upload, download,
  close), `tunnel` (what holds of both sides together), `options`, `transfer`, `text`,
  `constants`. Public proof functions named `law_...` state what callers can rely on.
- `app/`: the program around it: command line, sockets, timers and HTTP.
- `tests/`: tests of the library.

What is taken on trust about other crates is marked in the doc comments of `ident` and `headers`:
the random number generator, the regular expression search, and header tables.
