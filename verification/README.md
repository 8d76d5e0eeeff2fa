# callifornia

The decision-making core of a small group-calling stack (connector, signaling,
room manager, supervisor and browser client), written in Verus with each public
function's behaviour stated in `requires` / `ensures` and proved.

- `src/` is the verified library: storage key layout and record codecs, the
  configuration grammars and their error messages, request validation and error
  mapping, token claims and HS256 signing, least-loaded SFU selection, and the
  client's screen, form and room state. Work that alternates outside calls and
  decisions is written as step functions from a stage and the last reply to the
  next stage and the operations to perform: the signaling handler for client
  messages and for a closing connection
  (`services::signaling::protocol`), joining and leaving a room's member set
  (`services::signaling::membership`), applying new device settings to a media
  session (`client::local_media`), the supervisor's janitor pass and
  dead-SFU sweep (`services::supervisor::janitor`), and the room manager's
  health pass (`services::room_manager::health`). Properties that span several
  calls are stated as public proof functions named `law_*`.
- `tests/` runs the library on concrete values, one test per law among them.
- `app/` is the unverified shell: reading the environment and printing each
  service's settings, issuing a token, and the JSON wire forms of the messages
  (`serde`).

Outside crates are reached from `src/` only through a few trusted wrappers
(`uuid` parsing, `base64` encoding, `jsonwebtoken` signing, the system clock),
each with a doc comment saying what its contract assumes.
