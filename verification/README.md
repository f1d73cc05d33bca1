# companion

Companion mode for a chat agent: a persistent persona, a familiarity score
that grows with every turn, and a memory of the user that spans sessions.

The library (`src/`) is verified with Verus:

- `mode` — configuration, per-user sessions (turn count, familiarity in
  hundredths), persona selection by channel affinity, summary scheduling.
- `context` — the system prompt rebuilt on every turn from the persona card,
  relationship depth, recalled memories, rolling summary and tone guidance.
- `harvester` — the fact-extraction prompt, the tolerant reading of the
  model's reply as `(key, fact)` pairs (JSON through `serde_json`), and the
  memory writes for harvested facts.
- `tools` — the remember / recall / update-summary tools: argument checks,
  security rulings, memory operations and results.
- `namespace` — the keys and session scopes under which entries are stored.
- `text` — character-level string helpers.
- `laws` — properties that span several operations.

`app/` holds the asynchronous plumbing: serde configuration types, the memory
backend, provider and security-policy interfaces, and the tool interface.
