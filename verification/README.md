# stock_operator

The verified core of a local stock-trading UI operator: it reads a broker
desktop client's tables, checks orders before they are staged, and supervises
live order and cancellation operations through a short-lived, one-time
confirmation.

- `src/` is the library, written in Verus and verified. It holds the page
  logic (table normalization, business records, OCR table assembly,
  navigation label choice, order dialogs), order validation and trade
  preflight decisions, the live-operation lifecycle (which request may go on,
  which state changes the store allows, what the caller is answered; the
  prepare, confirm and abort calls are step machines in `live_protocol`,
  which the service drives), the
  settings and network-exposure checks, and the fingerprint of a prepared
  operation.
- `app/` is the program around it: the command line, the SQLite store, the
  REST and MCP server, the keychain, and the broker-window driver (which is
  not available in this build).
- `tests/` runs the library on concrete inputs.
