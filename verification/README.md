# stutter

The tuning actions of stutter, verified with Verus: what each action checks before it
touches the system, what it would change, what it records to undo a change, and how the
undo is tallied and reported.

- `src/` is the verified library. Each action (`nice`, `ioprio`, `cgroup`,
  `cgroup_verify`, `cgroup_apply`, `cgroup_rollback`, `cpu_affinity`, `cpu_power`, `gpu_power`,
  `irq_affinity`) takes what was read from procfs or sysfs as plain values (`FileRead`,
  `FileAccess`, the per-action observations) and returns the warnings, state, plan or
  error the phase produces. An apply also takes how each of its writes went, in the order
  it makes them, and returns the rollback token or the apply's error; a rollback takes
  what was seen of each record and how its write went, and returns the tally or the
  failure. The shared parts are
  the typed errors (`error`), the rollback tokens (`token`), the rollback registry and
  restore tallies (`rollback`, `restore`), the outcomes of an apply's writes (`writes`),
  the factory registry (`factory`) and the audited run's stage machine (`runner`).
- `app/` performs the I/O: it reads the system into observations, makes the writes and
  system calls the plans call for, drives the run machine, writes the audit log, and holds
  the serde wire form of action errors.
- `tests/` runs the library on concrete values.
