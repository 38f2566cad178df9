# tass

The logic of the tass tools — mage pattern-quintessence balances kept at
milli-point resolution on `actor.rpg.stats` records, the listener that turns
"burn my tass" posts into phased verbs, and the command line around them —
written in Verus and proved against its contracts.

## Layout

- `src/` — the verified library.
  - `quint`, `mage`, `stats`, `quint_jac`, `repo_mage`, `report`: the balance
    (source of truth in milli-points, whole points always its floor), reading
    mage blocks in every shape a sheet comes in, classifying stats records,
    and the read-modify-write of a sheet, with its read-back laws.
  - `phase`, `engine`, `enervate`, `chat_enervate`, `listen`, `spacedust`,
    `slingshot`: phased work as pure state machines, the per-event step a
    runner takes, keyword dispatch, and the two burn verbs' drivers.
  - `config`, `tailscale`, `web_auth`, `profiles`, `cli`, `output`,
    `lexicons`, `generate`, `samples`, `ledger`, `args`: configuration
    blocks, OAuth client plans and the login page, profile fragments, what
    each command decides and prints, output framing, lexicon registries, the
    example records.
  - `json`, `text`, `repo`: the plain JSON model, text helpers with their
    specifications, record envelopes.
- `tests/` — tests of the library.
- `app/` — the `tassle` binary and the runtime around the library: serde and JSON bridges, output
  encoders, the async phase runner and executor, the Spacedust socket and the
  listener loop, key files and profile fragments on disk, and the bodies of
  the commands that read and write files.

Calls into outside crates (`url`, `shell-words`, `html-escape`, `base64`,
`chrono`, `serde_json`, `toml_edit`, `jacquard-common`, parts of `std`) sit behind small trusted
wrappers whose contracts name what the call returns.
