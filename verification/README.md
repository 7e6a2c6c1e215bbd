# borer

A self-hosted HTTP tunnel: a server forwards incoming HTTP requests over a
websocket to a local agent, which performs them against a local service and
sends the replies back; replies are matched to requests by request identifier.

- `src/` is the verified library (Verus): the table of requests awaiting a
  reply (`pending`), request identifiers (`request_id`), the proxy's decision
  table (`proxy`), message routing on both ends of the websocket (`protocol`,
  `client`), header and bearer-token rules (`headers`), token minting and the
  auth routes' decisions (`auth`), and the settings and command-line types
  (`config`, `cli`).
- `app/` is the program around it: the axum server (`borer server`), the agent's
  command line and tunnel session, JSON and TOML encoding, and Postgres access.
- `tests/` exercises the library on concrete values.
