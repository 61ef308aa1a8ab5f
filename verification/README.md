# yonder

The verified core of a LAN file-sharing desktop app. Devices find each
other through mDNS, know each other by Ed25519 endpoint ids, and send files
over QUIC after the receiver accepts.

`src/` is the library, checked by Verus:

- `identity`, `hex`: secret keys and their hex text, endpoint ids, the
  device identity and its OS tag.
- `config`: settings, their defaults and locations, and the choice between
  the settings file and fresh defaults.
- `transfer`: transfers, their life cycle, and the progress throttle.
- `keyed`, `state`: the app state (peers, transfers, parked decisions).
- `accept`, `client`: the two sides of the transfer protocol (meta header
  framing, receive and send sessions, file destinations, notices).
- `net`, `discovery`: discovery announcements and the grace period before
  a vanished peer is dropped; service names.
- `commands`: what the user interface can ask.
- `paths`, `text`: Unix path arithmetic and string helpers.

`app/` is the desktop shell (Tauri window and tray, the iroh endpoint, the
accept and discovery loops, file and settings I/O). `tests/` exercises the
library with the real outside crates.
