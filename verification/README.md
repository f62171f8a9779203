# svault

A local broker for secrets and permissions. People and agents talk to a daemon over a Unix
socket; the daemon holds an encrypted vault, hands secrets to the agents that may have them, and
keeps a log that shows when it was changed.

`src/` is the library: the decisions of the broker, its client, its command line and its
dashboard, proved with Verus against the contract that stands at each function.

| module | what it decides |
| --- | --- |
| `crypto`, `envelope` | keys, the vault's file format, unlocking and resealing |
| `audit` | the hash chain of the log, its MACs, its ceilings and its checkpoint |
| `broker` | who may ask what, the operations, runs of child processes, the idle lock |
| `broker_identity` | the broker's signing key, pins, the handshake |
| `client` | the order of a connection, which trusts the broker before it sends a request; requests and answers |
| `wire`, `fdpass`, `transfer` | how requests and answers travel |
| `cli`, `dashboard` | the two front ends |
| `fsops`, `paths`, `dotenv` | where files may be written, and what is written in them |
| `json`, `text`, `order`, `stamp`, `error` | what the others share |

What should hold of the library as a whole stands in proof functions named `law_..`, each beside
what it speaks of or in a module `laws`.

`app/` does the input and output around these decisions: sockets, files, terminals, serde. Where
the order matters, as in a connection, a command, a run, a publication, a refresh or a lock, the
library names the next action, and `app/` performs it and hands the outcome back.

`tests/` runs the library on concrete values.
