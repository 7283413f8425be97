# elowen-edge

The edge runtime of Elowen: it registers a device with its orchestrator, takes dispatched jobs, runs
Codex and the validation commands of a repository in a sandboxed worktree, reports every step as an
event, and pushes only what has been approved.

`src/` is the library `elowen_edge`. It holds the rules of the runtime as verified Rust: every
function has a contract that Verus proves.

- `text`, `paths`, `volumes`, `timestamp`, `encoding`, `json`, `crypto`: texts, paths in the notation
  of POSIX systems and of Windows, points in time, and the few things that come from other crates.
- `config`, `env_import`, `command`: the TOML configuration and its secrets, the import of env files,
  the command line.
- `discovery`: the scan for repositories and the search for one of them.
- `registration`, `status`: the registration of the device, the proof of mutual trust, and the status
  that is left for the operator.
- `job`, `workspace`, `sandbox`, `codex`, `validation`, `execution`, `finish`, `approval`: the life of a
  job, from its dispatch to its approved push.
- `runtime`: subjects, routing and the answer to availability probes.
- `service`, `tui`: the service manager and the operator's console.
- `standalone`, `standalone_job`: a minimal edge that is configured by environment variables alone.

Whatever touches the disk, the network, a process or the clock happens outside the library. Where the
library needs such a thing in the middle of its work, it says what is to be done next and is told what
came of it: a scan, a workspace, a commit, the end of a run, a job and a push are each a phase and an
action, and a function from what was done to the next of both.

`app/` is the program around the library: it reads files, runs processes, talks to NATS and to the
orchestrator, draws the console, and drives the steps. Started without arguments, with a message bus
named by `ELOWEN_NATS_URL`, it runs the minimal edge.

`tests/` runs the library on concrete values.
