# agent_status

Login status of a messenger that is driven through the accessibility tree of its desktop, and the
flows that check, end and start a login.

- `src/`: the verified library. `tree` and `text` search the accessibility tree; `observed` says
  what one look at the desktop shows; `session`, `auth`, `logout`, `login` and `login_ws` are the
  flows, each a function from a stage and an outcome to the next stage; `events` converts the
  events of a plan for the client; `slot` lets one login flow in at a time; `login_laws` proves
  what holds of every login flow; `outside` holds the calls into other crates with what is taken
  for granted of them.
- `tests/`: tests of the library.
- `app/`: HTTP and WebSocket handlers that do the work the flows ask for.
