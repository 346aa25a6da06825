# tryx

The verified core of Tryx, a WhatsApp automation binding built on
`whatsapp-rust`. The library in `src/` is written in Verus: each public
function states what it returns in its contract, and the laws that tie
functions together are proved as proof functions.

- `dispatch` — registering callbacks per event kind and finding the ones to run.
- `events` — event payloads: connection failures and stream errors, logouts,
  pairing, bans, receipts, presence, messages, group notifications, contact and
  chat changes from app-state sync, device lists, business status, sync
  progress. A payload built on first read is handed out with the same value on
  every later read.
- `player` — the audio player's control logic: a step function from state and
  command to the next state and the actions to perform.
- `media` — the call media contract: PCM16 frames of 960 samples, sample
  format conversion, resampling to 16 kHz, framing, and H.264 access units.
- `polls` — decrypting votes and tallying each voter's latest ballot.
- `download` — reading a media message by its type name, or by trying each kind.
- `outgoing` — the messages sends carry: texts and quoted replies, photos from an
  upload, and raw encoded messages, keys and ranges read before sending.
- `store` — the protocol of a native key store: statuses, buffers, operation codes.
- `requests` — the checks requests pass before they are sent, and which lookups
  an is-on-WhatsApp check sends and how their answers combine.
- `helpers`, `jid`, `types`, `runner`, `text` — invite links and defaults,
  addresses, message envelopes, the foreground run, and text building.

`app/` holds the runtime around it: conversions from the protocol library's
values, the native store reached through `libloading`, the player loop and
file decoder, the video player, and the foreground run loop.
