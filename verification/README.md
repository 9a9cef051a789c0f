# suss

`suss` creates collections of Unix services that live in one *base context directory*, talk to each
other over Unix sockets, and start each other on demand. To connect to a service is to connect to
its socket; where nobody listens there, the service is started, has to report within a time on an
ephemeral *liveness socket*, and is then connected to.

What the library decides is verified with [Verus](https://github.com/verus-lang/verus); what has to
touch the system is kept apart from it.

- `src/` makes the decisions. Each operation is a machine: it asks for one action at a time (bind
  this path, run this command, wait for a ping no longer than this) and goes on with the answer.
  - `attempt`, `create`, `check`, `cleanup`, `connect`: connecting to a service.
  - `notify`, `serve`: running the server of one.
  - `service`, `server`, `bundle`: services, and what they are used with.
  - `command`, `liveness`, `path`, `sockpath`, `timeout`, `timefut`: the values that the machines
    work on.
  - `connect_laws`, `connect_order`, `serve_laws`, `protocol`: what holds of every run, whatever the
    answers are: sockets are cleaned up, a service is started at most once and only if it was not
    found, a ping means that there is a socket to connect to.
- `app/` carries the actions out, on `async-std`, on `tokio` or on a pool of threads, and holds the
  macros by which services and bundles are declared.
- `tests/` runs the library in worlds that are made up.
