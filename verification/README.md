# rmtfar

RMTFAR is a radio mod for Arma 3 that uses Mumble for voice: the game sends
each player's state (position, heading, push-to-talk keys, radios) to an
extension DLL, which keeps every player's latest state, writes the local
player's position into Mumble's positional-audio shared memory and sends a
radio state message to a Mumble plugin; the plugin then decides, frame by
frame, whether a speaker is heard, on the radio or by direct voice.

This crate is that logic, verified with Verus:

- `src/` — the library, every function with a contract:
  - `text`, `pipe`, `payload`, `json`: reading what `callExtension` hands
    over (JSON wrappers, the `v1|...` pipe-delimited payload with `\`
    escapes);
  - `protocol`: player states, per-player summaries and radio state
    messages;
  - `store`, `extension`, `bridge`: the player store and what the
    extension (or the standalone bridge) does with each call;
  - `plugin`, `radio`, `audio`: the plugin's memory, its per-frame audio
    decision, the radio-hearing rule and sample-buffer routing;
  - `link`, `mumble`: the text fields of the MumbleLink shared memory and
    the fixed answers of the Mumble plugin interface;
  - `laws`: properties that span several operations.
- `tests/` — tests of the library on concrete values.
- `app/` — what stays outside verification: the C ABIs of the extension and
  the plugin, shared memory, UDP sockets, JSON encoding, floating-point
  geometry and the radio DSP, the bridge and the test client.

Decimal quantities (positions, ranges, volumes) travel through the library
as the bit patterns of their `f32` values; distances are measured in `app/`
and handed to the library as "within reach" flags.
