# woofer

The verified core of Woofer, a Spotify client with lyrics, translation and
romanization providers that run as sandboxed plugins.

`src/` holds the logic, each function with its contract, proved by Verus:

- `abi` — the plugin ABI: packed pointer/length pairs, the rooms the host
  writes into, and how a handler's answer (or refusal) becomes one string,
  with the host's answers attached to the input.
- `lyrics_ovh`, `romanize_offline` — the two official providers: their
  input checks, plans and answers.
- `chains`, `health` — each kind's provider chain in the user's order, its
  seats and removals, the session's failure streaks, and the walk down a
  chain that stops at the first provider holding data.
- `lookup` — the order of lookups: Spotify, LRCLIB, then the lyrics chain;
  each aid's chain before the built-in source behind it.
- `calls`, `backend`, `session` — the Web API calls a request makes, what
  their failures mean, and the sign-in and playback gates of the worker.
- `plugins_page` — what the Plugins page lists and offers.
- `art`, `resample` — artwork cache names and eviction, and the integer
  schedule of the sample-rate converter.
- `json` — JSON documents as text: serde_json parses and writes each
  field's value; the library sets a field in the sorted order an object
  keeps and writes the object back itself.
- `text` — text helpers and the serde_json, urlencoding, any_ascii and std
  calls the rest makes, each behind a trusted item with a contract.

`app/` holds what works on raw pointers, async plumbing, serde input types
and floating point: the ABI exports of a module, the async walks, the
limiter, the converter's filter, the accent colour of a cover, a request
runner and the Plugins page's buttons.

`tests/` runs the library on concrete values.
