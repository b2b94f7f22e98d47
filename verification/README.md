# keyboard_owner

The verified decision core of an out-of-process keyboard owner for macOS:
the process that holds the keyboard event tap on behalf of a dictation
client, admits activation and paste requests, and keeps every native edge it
suppresses accounted for.

`src/` is the library, verified with Verus. Its main parts:

- `build_mode`, `capture_gate`, `entry`: what a build may capture and what it
  reports.
- `callback`: the callback gate's lease word, the terminal signal, and a
  record of what each channel was offered.
- `native_event`, `barrier`, `journal*`: the bounded recovery journal of
  deferred native edges (arrival order, per-source key/modifier/mouse models,
  overflow with balancing, exact submission and observation), capture into
  it (`journal_defer`) and authentication of its reposts (`journal_repost`).
- `paste`, `paste_steps`: paste admission, the owner's poll step, the
  neutral barrier observation step and completion decisions.
- `adapter`, `executor`: owner commands mapped to the exact native effects
  handed to the adapter, and completions checked against them.
- `recovery_failure`: failing the recovery journal closed.
- `identity*`, `peer_evidence`, `native_identity`, `keychain`,
  `native_keychain`, `endpoint*`, `service_bridge`, `removal`, `resilience`:
  local peer identity, credential, endpoint and maintenance policy.
- `clipboard_hash`: bounded conversion of native text, validated chunk by
  chunk; the converted UTF-8 bytes are kept and hashed once at the end.

Contracts are stated over spec models (`Seq`, `Map`, views); laws that span
operations are public proof functions named `law_*`.

`tests/` exercises the library at run time, and `app/` is the thin
executable around it (arguments, environment, printing).
