# fabric

A client library for the Fabric training portal: the run summary and its live
patching, run health, the fleet deck, the topology explorer, sign-in and the
app shell. The library (`src/`) is verified with Verus; every public function
states what it returns or changes, and the laws the library keeps (round trips,
idempotence, stable ordering, what each operation preserves) are proof
functions beside the code they speak of.

## Layout

| Module | What it decides |
|---|---|
| `text`, `seqs` | text and sequence helpers the rest is stated over |
| `model`, `vizmodel`, `series` | the portal's data as the library reads it |
| `auth`, `session`, `signin`, `client` | sign-in callbacks, sessions, tokens, request paths and failure texts |
| `patch`, `roster`, `live` | live deltas applied to the summary, the roster and the tree; SSE framing |
| `order`, `sorting` | run ordering and the stable table sort |
| `health`, `panels`, `desktop`, `board` | run health, metric panels, table texts, the runs board |
| `geometry`, `topology`, `drive`, `eligible`, `fab`, `quant8` | substrate layout, checkpoint choice, step input, FAB framing, frame bytes |
| `network` | which request each command makes and where each answer goes |
| `deck` | the fleet view: selections, rentals, assignments, results and deltas |
| `explorer`, `picker` | the topology explorer: load and step cycle, timeline, input picker, run picker |
| `search`, `shell` | the search field's editing, the app shell's sign-in and view switching |

`app/` holds what the library leaves to its caller: the HTTP transport and the
live stream, serde forms of the wire types, saved credentials and
preferences, and the floating-point formatting, chart geometry and health
heuristics. `tests/` exercises the library on concrete values.
