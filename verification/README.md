# block-city-adventure

The networking, boot and menu logic of the Block City Adventure game, as a
Verus-verified library, with the Bevy game shell around it in `app/`.

`src/` (verified):

- `text` — trimming (Unicode whitespace), ASCII case folding, decimal
  integers, substring search; the string handling the rest builds on.
- `local_debug` — command-line and environment boot settings
  (`--coop-server`, `--pvp-client <ip>`, `--net coop-client`, `--role`,
  `--port`, `--window-pos`, `LOCAL_NET_DEBUG*`, ...), the debug window
  placement and the boot decision.
- `pvp_net` — the PVP session over UDP: player slots, heartbeats,
  disconnect timeouts, message handling, as one tick function from state,
  time and received messages to new state, datagrams and screen switch.
- `pvp_laws` — what every tick preserves and when heartbeats and
  disconnects happen.
- `room_form`, `pvp_menu` — the multiplayer menu, its connection form, the
  PVP quick-join menu, lobby status and result title.
- `window_controls` — the minimize / maximize / close buttons.
- `assets` — where the asset folder is looked for.

`app/` holds the Bevy plugins and systems, sockets, bincode encoding,
the clock, environment and file system access.
