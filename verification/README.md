# mmorpg-fleet

The logic of a small fleet of game servers, verified with Verus, and the programs around it.

- An **orchestrator** keeps enough room for players: it hears the heartbeats of dedicated
  servers, starts servers where room is short and stops empty ones where there is plenty.
- A **gatekeeper** logs players in, claims a slot on a server for each and leaves a session
  behind that is good once, on that server.
- A **dedicated server** lets in the players whose session it can burn.
- A **host agent** starts and stops the one dedicated server of its host.
- A **test client** plays as many players as its prompt asks for.

## Layout

- `src/` is the library. What waits for the network, the store or a container command is a
  machine there: it says what to do, is told what came of it, and says what to do next.
  The contracts say which action follows which event; the functions whose names begin
  with `law_` say what holds of several steps, or of several machines, together.
- `src/boundary.rs` holds what the library takes from outside, and what is believed of it.
- `tests/` runs the library on given values.
- `app/` is the program: it performs the actions.
