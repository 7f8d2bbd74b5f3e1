# process_guard

`process_guard` provides two-stage process cleanup for synchronous code through RAII. When a guard is dropped, it sends a configurable graceful signal (`SIGTERM` by default), waits for a bounded interval, escalates to `SIGKILL`, and reaps the direct child; the same operation is available explicitly and can target a child or a dedicated process group.

- `src/` is the library, verified with Verus. It makes every decision and performs no system call: an operation asks for one action at a time and is resumed with the reply.
- `app/` wraps the library around `std::process::Child`. It performs the actions and implements `Drop`.
- `tests/` runs the library against simulated processes.

## Process groups

A guard made by `spawn_process_group` owns a dedicated process group that its direct child leads. `ShutdownPolicy::Graceful` asks the direct child to coordinate shutdown, while `ShutdownPolicy::GracefulProcessGroup` broadcasts the graceful signal. Forceful fallback always signals the complete group. The guard reaps the direct child.

On a direct-child guard `GracefulProcessGroup` behaves like `Graceful`; the guard never signals the child's inherited process group, which could also contain the caller or its parent.

`shutdown` reports cleanup errors and retains ownership when cleanup fails, allowing another attempt. `take` returns the direct child and relinquishes all cleanup responsibility.

## What is proved

The contracts say exactly which action each reply leads to. `src/laws.rs` proves of whole shutdowns, whatever the operating system replies, that signals escalate and are each sent at most once, that the grace period is observed and never overslept, that the child is reaped at most once, that a process group is gone or killed before success is reported, and that the exchange with the operating system is bounded on a steady clock.

What is trusted of `nix` and of the standard library is listed in `src/system.rs`.
