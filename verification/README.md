# coduck

Runs the official Codex terminal with a named ChatGPT account. A profile keeps its credentials
in a helper process with a home of its own; the terminal talks to coding servers through a bridge
that hands them short-lived tokens and keeps everything that deals with credentials to itself.

`src/` is the library, verified with Verus: it decides from plain values what is to be done next.
`app/` is the program around it: it opens files and sockets, starts processes, waits and prints.

| module | what it decides |
| --- | --- |
| `text`, `path`, `json`, `error` | texts, paths, JSON values, and the words for each failure |
| `profile` | names and places of profiles; which children may be left behind |
| `record`, `disk` | how records are written and read, and what is read after one was saved |
| `process`, `terminal` | how children are started, signalled and ended; how the terminal is left |
| `codex` | which executable is run, with which arguments and environment |
| `rpc` | framing, identifiers and answers in a conversation with an app-server |
| `auth`, `helper` | whose a token is, what a helper's answers are worth, and what it is asked when |
| `bridge`, `relay` | what the terminal may ask, and one connection as a machine |
| `host`, `session` | the credentials, the connections and the terminal of a run |
| `cli`, `flow` | the command line, the list of profiles, and the course of each command |
| `promises` | what a connection promises to the terminal, the server and the account |
| `connections` | what holds of all connections of a run, however their steps follow |

Functions named `law_..` state what holds of several functions at once. Calls into `serde_json`,
`base64`, `clap` and the system clock stand behind small functions whose comments say what is
taken on trust.
