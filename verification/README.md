# nativeblocks

The core of the Nativeblocks server-driven UI engine, as a library verified
with Verus. A frame is a screen described by the server: variables, blocks
arranged in slots under a root block, and actions whose triggers form a graph
of SUCCESS / FAILURE / NEXT branches.

## Layout

- `src/` — the verified library.
  - `model`, `dto`, `mapper`: the frame model, the server's response shapes,
    and the mapping between them (keyed maps, action grouping, the root block).
  - `collections`: `StringMap`, an ordered map with distinct keys, viewed as a
    `Map`.
  - `sync`, `repository`, `memory`, `keys`: the frame sync as a state machine
    (development, checksum-gated production, community), what is stored and
    shown after each step, the in-memory frame cache, the cache keys.
  - `layout`: blocks grouped by parent and ordered by position, triggers
    grouped by parent.
  - `client`, `state`, `diff`: the frame engine state, the frame state manager
    and the incremental variable and block changes.
  - `action`, `script`: the trigger graph and the script action's pure parts.
  - `url`: percent-encoding, REST URLs, and the choice of transport.
  - `localization`: translations, the localization client and its manager.
  - `log`: the log events of variable and block changes, frame syncs, frame
    states and scaffold fetches; the host's logger only dispatches them.
- `tests/` — tests of the library on concrete values.
- `app/` — the host side: serde copies of the model, the JSON wire format,
  downloads over the host's HTTP client, the frame store, the QuickJS script
  host and the async loops that drive the library.
