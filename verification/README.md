# crater

A small Linux container runtime whose decisions are verified with Verus.
`crater create|start|kill|state <id>` manage a container configured by
`config.json`; `crater [command args…]` runs a command (`/bin/sh` by
default) in a fresh container and waits for it.

- `src/` is the verified library: paths of the runtime's state, the mount
  option parser and mount plans, the configuration checks made before a
  launch, cgroup limits, signal names, the pid file format, loop device
  numbers, the `/proc` and `/sys` mounts and loopback command of run mode,
  and the command line.
- `app/` is the program around it: it reads `config.json` with `oci-spec`,
  forks, unshares namespaces, attaches the loop device, mounts, pivots,
  writes the cgroup files and execs the configured command, handing the
  library plain values and acting on what it returns.
- `tests/` runs the library on concrete values.
