# multiplayer

Verified core of a multiplayer game backend and game server, written in
Verus.

- `src/` — the library. Its functions are verified, except five small
  wrappers that call the `uuid` crate or `str` methods (in `ids` and
  `text`); their contracts state what those calls return and are trusted:
  - `session`, `systems`, `notifs` — a game server's session bookkeeping
    (reserved slots, active players, client identities, shutdown timer) and
    how it answers placement and reservation requests and per-frame
    timeouts and disconnections;
  - `models`, `heartbeat`, `matchmaking`, `findserver` — the backend's
    records of servers and sessions, what a heartbeat writes, and the state
    machines that find a server for a player (token check, then backfill
    search, then allocation of an idle server);
  - `network`, `addrtext`, `server`, `spectate`, `orchestration`,
    `player`, `client` — advertised addresses and their text, heartbeat
    reports, the server's spectator screen, backend kinds, player posture,
    gamepad tracking and the client's menu flow;
  - `timer`, `ids`, `text`, `gameserver`, `gameclient`, `user` — support
    types and messages;
  - `laws` — properties that span operations, as proof functions.
- `tests/` — tests on concrete values, including a comparison of the timer
  with the game engine's own.
- `app/` — serde copies of the messages, the host's network interfaces,
  and drivers that run the matchmaking state machines against a store.
