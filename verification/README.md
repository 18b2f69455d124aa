# robotrade

The core of a crypto-futures trading robot for Binance Futures and Kraken
Futures, written in Verus.  The logic in `src/` is verified against its
contracts; the calls into outside crates (decimals, time, ids, JSON,
hashing, encodings, directories) stand behind small trusted wrappers whose
contracts say what those crates document, and a few helpers carry no
contract beyond their types.

- `src/` — the verified library: decimals, risk management, the circuit
  breaker, the job queue and scheduler, positions and P&L with cost basis,
  the ledger service with its store, reconciliation, the historical sync's
  decisions, paper trading, the exchanges' messages, requests, signatures
  and conversions, database records, configuration and the Fear & Greed
  index. Public `law_*` proof functions state what holds across calls.
- `tests/` — tests of the library on concrete values.
- `app/` — the I/O around the library: HTTP and WebSocket clients, SQLite
  storage, the configuration file, logging, and the loops that drive the
  stream manager, the historical sync, reconciliation and data collection.

Calls into outside crates (`rust_decimal`, `chrono`, `uuid`, `serde_json`,
`base64`, `hmac`, `sha2`, `urlencoding`, `directories`) go through small
trusted wrappers whose contracts are stated next to them.
