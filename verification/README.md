# rcore_os

A small RISC-V teaching kernel whose decisions are written and proved in Verus.

`src/` is the verified library:

- `task` — task states, saved contexts and the round-robin task manager, with
  its life-cycle laws (exited tasks stay exited, only the current task runs,
  yielding prefers other ready tasks, a yielding task runs again, "all completed"
  exactly when no task is ready).
- `trap` — the saved user context (a new one returns to user mode and keeps
  every other bit of `sstatus`), decoding of `scause`, and what each trap asks
  the kernel to do.
- `syscall` — the kernel's system calls: dispatch, lossy UTF-8 printing for
  `write`, `exit`, `yield` and `get_time`.
- `abi` — call numbers, the register frame of a call, `TimeVal`, and the law
  that the kernel decodes what an application encodes.
- `loader`, `batch` — where applications and their stacks live, and the plans
  for loading and starting them.
- `sync` — a cell written at most once and a lazily computed value.
- `timer`, `config` — clock arithmetic and layout constants.
- `user` — the application library's side of the interface.

`app/` is the machine-facing program around the library: boot, linker symbols,
raw memory copies, control registers, firmware calls and the context switch.
`tests/` runs the library on concrete values.
