# wal_decoder

Interprets the records of a PostgreSQL or openGauss write-ahead log for the
shards of a page server.

The library in `src/` takes a record whose header and block references have been
read, and the structure that its main data starts with where its type has one.
It finds the metadata record that the log record stands for, and gives every
shard its share: visibility map updates go to the owners of the map pages, files
to be stored go to shard zero, and everything else goes to all shards.

| Module | What it holds |
|---|---|
| `bytebuf` | byte buffers and the little-endian numbers read from them |
| `constants` | numbers of the log format |
| `types`, `error`, `records`, `interpreted` | what goes in and what comes out |
| `payload` | the structure at the front of a record's main data |
| `heap`, `storage`, `xact`, `message`, `uheap`, `undo` | the decoders, by resource manager |
| `decode` | which decoder a record goes to |
| `shard`, `routing` | the records of the shards, and who receives what |
| `interpret` | from a decoded record to the records of the shards |
| `laws` | what holds of the library as a whole |

`app/` reads raw bytes through the PostgreSQL bindings and asks the page server
which shard owns a page.
