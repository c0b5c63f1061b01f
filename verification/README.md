# tivana

The decision logic of Tivana, a perception-first browser runtime for AI agents,
written in Verus and verified.

- `src/` — the verified library: proxy rotation, the protocol envelopes and method
  routing, the session lifecycle and registry, persistence records, action planning
  (targets, scroll and focus plans, batches, waits, form filling, fuzzy profile
  matching), perception records, CAPTCHA classification and the Whisper fallback
  order, the extension bridge's bookkeeping, and the page scripts with their quoted
  parts. Public proof functions named
  `law_*` state the properties that hold across calls.
- `tests/` — tests of the library on concrete values.
- `app/` — the program around it: command-line parsing, the WebSocket server,
  Chromium through chromiumoxide, page scripts' I/O, files and processes.
