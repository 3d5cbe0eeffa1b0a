# pi_daemon

The core of a background agent daemon, verified with Verus.

A daemon keeps agent sessions alive between the visits of their clients. A
supervisor owns a socket, starts one worker process per root session, and shares
the workers among its clients. This crate holds the rules by which it does so:

- who owns a socket and a registry, and when an owner may be replaced;
- how commands are remembered, so that none runs twice;
- how frames and lines are cut out of a stream of bytes;
- how compact updates of a message are put together again;
- what the ledger of spawned agents says after any number of records;
- which client sees which session, and which command goes where.

`src/` is the verified library. File-system facts, the clock and the state of
processes come in as arguments; what waits for something outside is a state machine
that takes an event and gives the next action. `app/` is the plumbing around it:
files, sockets, processes and timers. `tests/` runs the library on given values.
