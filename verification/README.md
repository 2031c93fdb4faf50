# evo_device_plugins

The decisions of three plugins of an audio device, verified with Verus.

- `multiroom`: plays one source in several rooms. The receiver's scheduler hands
  every frame on at its time, unaltered and in order; the source turns the
  receivers' telemetry into the delay that it asks of them.
- `shares`: mounts network shares and finds new ones. Mount attempts, dialect
  probing, discovery, the published state of every share, and the operator's verbs.
- `metadata`: enriches a music library from online providers. Which providers may be
  asked, in what order and for what, what is kept of their answers, and what the
  operator is shown.

`src/` is the library. Waiting, files, subprocesses and the network are not in it:
where a decision has to wait for something, the library hands out what to do next
and takes in what came of it. `app/` performs those steps: it holds the plugins'
asynchronous loops, the forms in which values stand in files and on the wire, and a
program that serves the network-shares plugin over a Unix socket. `tests/` runs the
library.

Texts are compared as sequences of characters, instants are nanoseconds of a
monotonic clock, and dates are milliseconds or seconds of the epoch.
