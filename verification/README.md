# connect4

The core of a Connect Four game server, with its logic proved against
its contracts.

- `src/services/connect4_engine.rs`: the rules. `make_move` drops a token
  into a column; its contract describes the resulting board and result over
  the abstract board (`BoardView`). The file also proves that a legal move
  keeps a well-formed board well formed.
- `src/models.rs`: the board (`BoardState`, a cell map keyed by one integer
  per cell, and the column heights), its stored form (cells under `"x,y"`
  keys) with a proof that a stored board reads back as itself, and the
  request and answer types.
- `src/services/*_service.rs`: the room, player, session and game services
  as state machines. A start function gives the first state and the first
  database action; `step` takes the outcome of an action and gives the next
  state and action, up to `Finish`, or `Abort` with the message with which
  the service panics.
- `src/error.rs`: the services' errors and the API's answer to each.
- `src/utils.rs`, `src/utils/`: hashing, invite codes, random tokens,
  instants, decimal text, and the session header.
- `app/`: the HTTP server around the library: settings, database queries,
  the JSON forms of the models, access token signing, and the loops that run
  the service machines.
