# lexi

The verified core of Lexi, a RIME-based Chinese input method for Windows.

The library (`src/`, checked by Verus) holds the decisions; the program
(`app/`) performs the Windows, pipe, file and engine-library calls that
those decisions ask for.

| module | what it decides |
|--------|-----------------|
| `engine` | the engine commands (start, key, selection, clear, status, shutdown) as a machine fed with the engine library's replies; the data directories it starts with; the contexts and statuses read from them |
| `bar` | what the candidate bar shows after each command, its size, colours and cell layout |
| `protocol` | the key-down request and the JSON answer carrying the engine's result, the server's per-connection buffer, how the text service reads an answer |
| `client` | the text service's pipe connection and the write/read exchange of one message |
| `com` | the DLL entry points, the registry values written on registration and the keys deleted on unregistration |
| `tsf` | the modifier mask sent with a key, and the text service's activation state |
| `guid`, `text` | class identifiers and their registry spelling; decimal, hexadecimal and UTF-8 helpers |
| `logging` | the log line format and the logger's installation |

The machines (`engine::RimeEngine`, `client::SendExchange`,
`protocol::PipeConnection`, `com::Registration`) are driven by a loop in
`app/` that performs each call and hands back its reply. Their laws
(termination, ordering, what a shutdown resets) are proof functions next to
them.

`tests/` runs the library on concrete values.
