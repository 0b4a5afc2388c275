# subathon_timer

A subathon timer for Twitch streams: a webhook server counts subscriptions,
cheered bits, bonus-minute rewards and Ko-fi donations, and a client turns
the counts into the remaining time shown on stream.

- `src/` — the verified library: the JSON field extraction (`json`), the
  error type (`error`), replay protection for transaction ids
  (`saved_ids`), the decisions on Twitch and Ko-fi notifications (`twitch`,
  `kofi`, and `time_server` with its `console`), the event tally (`tally`)
  and the countdown text (`countdown`).
- `app/` — the server, the timer task and the display client: HTTP, files,
  channels, and everything that computes with floating-point amounts.
- `tests/` — tests of the library.
