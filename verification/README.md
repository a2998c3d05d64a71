# livekit-tui-client (verified core)

The decisions of a terminal voice/video call client, verified with Verus:

- `src/client.rs` — the client as a state machine: key presses, pasted text,
  lobby signaling messages and connection outcomes map a state to the next state
  and an action for the surrounding program (connect, join a room, publish a
  message, save settings, close the call, mute).
- `src/app_state.rs`, `src/presence.rs`, `src/shared.rs`, `src/config.rs`,
  `src/token.rs` — the state, who is online and which rooms are listed, the
  signaling messages, the settings, and the claims of access tokens.
- `src/tui.rs`, `src/layout.rs`, `src/video.rs` — the texts of every screen, the
  placement of video tiles, and the decoding of renderer output and pixels.
- `src/server.rs` — the rules of the standalone signaling server.
- `src/laws.rs` — properties across steps and across clients (state invariant,
  both ends of a call meet in one room, public rooms listed and withdrawn,
  settings restored on the next start, and more).

`app/` is the program around it: terminal input and drawing, the media service
connection, audio and camera devices, the settings file and the WebSocket server.
