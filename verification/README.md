# codex-sandbox-server

A long-running service that executes commands in a sandbox for other local
programs. Clients talk to it over its standard streams, one JSON message a line,
or over a local WebSocket. They start commands, feed and control them, read their
output, and are asked to approve additional permissions and network requests.

`src/` is the decision core, a library verified with Verus: every function meets
its contract, but for the few calls into other crates in `external`, whose
contracts are taken on trust. It holds no I/O; it is told what happened and says
what follows.

| module | what it decides |
| --- | --- |
| `protocol` | messages, error codes, the final outcome of a command |
| `server` | what each message of a client leads to, what ends with a connection |
| `prepare` | from a `command/exec` request to a command that can start |
| `environment` | the environment of a command |
| `process` | the table of running commands, starting and controlling them |
| `run`, `command` | the life of one running command, up to its answer |
| `capture`, `output` | output caps, streaming, the captured output |
| `approval` | approval requests that wait for an answer |
| `permissions`, `network` | the two approval brokers and the session memory |
| `transport` | framing, connection events, admission of local peers |
| `startup` | the command line |
| `table`, `text` | a keyed table, text building |
| `external` | calls into other crates, with contracts taken on trust |

Properties that span several functions are stated as `law_*` proof functions
beside the code they speak of.

`app/` is the program around the library: command line, streams and sockets,
processes, the network proxy, and the conversion of wire types.

`tests/` exercises the library from outside.
