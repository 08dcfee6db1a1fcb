# NodeHarbor agent

The agent lends a computer's idle time to a fleet. It keeps a worker VM of its
own, starts it when the owner's rules permit, drains and stops it when they do
not, and moves the worker's storage between the disks that the owner selects.

`src/` is the library. It decides: what a saved setting means, which disks a plan
may use, what a routine does next after each answer, and what is told to the
owner. Every function in it is verified with Verus against its contract, and the
laws that span functions stand beside them as proof functions.

- `store`, `remote`, `policy`: the settings, and who may change them.
- `storage`, `storage_plan`, `storage_layout`, `storage_lifecycle`: volumes, the
  plans for worker disks, the VM's own place, backups and recovery.
- `lima_storage`, `runtime_storage`, `runtime_image`: disk images, the runtime
  directory and its boot image. `runtime_runs` runs the routines on a model of the
  host and states what whole runs leave behind.
- `vm`, `vm_operations`, `lima`, `guest`, `runtime_platform`: the VM, the order of
  its operations, its commands and its configuration.
- `agent`: the supervisor. `tick`, `routines`, `maintenance`,
  `storage_operations`, `absence` and `relocation` are its routines, written as
  state machines; `steps` lists what they can ask for; the other modules hold the
  changes of the settings and the checks behind each step.
- `activity`, `process`, `commands`, `observe`: the owner's log, the output of
  commands, the command line and what the computer shows of itself.
- `paths`, `host_paths`: paths as Unix writes them, and as the host's platform does.
- `text`, `values`, `json`, `identity`, `checksum`, `failure`: what all of
  these are written in.

A few functions call other crates (`uuid`, `serde_json`, `sha2`, `reqwest`). Their
contracts are taken on trust; each says so where it stands.

`app/` is the program: it reads and writes files, runs commands, talks to the
controller, and carries each answer back to the library. It expects the guest's
programs and the pinned runtime release in a `resources` directory beside the
executable. The sharing rules themselves are `nodeharbor_core`'s.

`tests/` holds the library's tests.
