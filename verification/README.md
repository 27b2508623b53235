# vuhlp

A session lets a client talk to an agent over standard input and output, one
JSON message per line. `src/` decides what a session does and is verified with
Verus; `app/` reads, writes and talks to the agent.

- `src/launch.rs`: the steps from the command line to a running session.
- `src/session.rs`: what follows a line, a message or the end of a turn.
- `src/turn.rs`: what the client is sent while a turn runs, and how a request for
  approval is settled.
- `src/shutdown.rs`: how a conversation with the agent ends, within five seconds.
- `src/input.rs`, `src/protocol.rs`, `src/text.rs`: lines, messages, strings.
- `src/laws/`: properties of whole runs, such as that every user message is
  answered with exactly one stop message.

The one thing that is taken on trust is what `str::trim` removes
(`src/text.rs`).

`app/` is built in a workspace that has the agent's own crates (`codex_core`,
`codex_common`, `codex_protocol`, `codex_utils_absolute_path`).
