# ticktick-cli

A terminal client for TickTick: it logs in with OAuth (PKCE), loads the
user's projects and their tasks from the TickTick Open API, and shows them in
a keyboard-driven terminal interface.

## Layout

- `src/` — the verified library.
  - `app.rs`: the interface state (`App`), its transitions and their laws
    (moving forth and back is undone, selections stay in range, quitting is
    final).
  - `ui.rs`: key handling and the lines, titles and highlights of the lists
    on screen.
  - `oauth.rs`: the PKCE state and verifier/challenge, the authorization and
    token request parameters, the callback's reading of the redirect, the
    token reply.
  - `ticktick.rs`: the TickTick endpoints, the data types, the API root.
  - `web.rs`: URLs (through the `url` crate) and HTTP reply statuses.
- `app/` — the program: environment, HTTP requests, the callback server, the
  browser and the terminal.
- `tests/` — tests of the library.

Set `TICKTICK_CLIENT_ID`, `TICKTICK_CLIENT_SECRET` and optionally
`TICKTICK_REDIRECT_URI` (default `http://127.0.0.1:8080/callback`) before
running the program.
