# proto_bench

Decision logic of a small UDP/TCP file-transfer benchmark, verified with Verus.

- `src/models.rs`: protocols, mechanisms and roles, with their printed names and parsing.
- `src/cli.rs`: the settings of a run and the accepted message sizes.
- `src/framing.rs`: the first message of a transfer (file name, ".recv", separator), the acknowledgement, chunk arithmetic.
- `src/server.rs`: the UDP receiving session as a state machine, with its laws.
- `src/modes.rs`: choosing how to run, and what a TCP stream handler does after each read.
- `src/transfer.rs`: counting chunks, the synchronous file client, the throughput benchmark plan.
- `src/text.rs`: text comparison and UTF-8 decoding.
- `app/`: sockets, files, timers, the command line and the async runtime, driving the library.
