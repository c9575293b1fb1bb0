# strecken_info

A client for the disruption services behind strecken.info: the HAFAS
interface (`HimGeoPos`, `HimDetails`), the disruption list of
strecken-info.de and its revision websocket.

- `src/` is the library, verified with Verus: the data model, the
  construction of requests, the reading of answers (finding the answer of a
  service, checking its error field, resolving the references of the
  disruptions), the removal of repeated stations, the parsing of journey ids
  and the revision protocol as a state machine. Dates and times are written
  and read by chrono, behind trusted wrappers whose contracts state chrono's
  documented output for the fixed patterns and name the results of parsing.
- `app/` holds the network calls (reqwest, tokio-tungstenite), the JSON
  encodings (serde, in `app/wire.rs`, with conversions to and from the
  library's types) and the loop that drives the revision protocol.
- `tests/` exercises the library on concrete values.
