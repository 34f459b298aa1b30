# aliceandbob

An arena in which two language-model players, Alice and Bob, play games that a
third model, the game master, invents. Players keep strategy memos that they
rewrite after every match.

- `src/` is the verified library (Verus): the configuration and its lookups,
  addressing chat models, the JSON repair loop, reading JSON replies, the
  prompts, mechanical scoring from a payoff matrix, the course of a match as a
  state machine, round-robin generations, and the decisions of the store and
  the service (status codes, the generation counter, event replay).
- `app/` is the server around it: HTTP (Connect protocol, JSON), the SQLite
  store, the HTTP client for the models, and the loop that carries out the
  match machine's commands. Scores are floating point and stay there.
- `tests/` exercises the library.
