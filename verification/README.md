# brainmux launcher — verified core

The launcher of the brainmux desktop app runs the local engine and console on
`127.0.0.1`, provisions `~/.brainmux` and the local Ollama runtime, and stops
every process group it started when it exits.

- `src/` is the library, verified with Verus: path resolution and the
  provisioned directories, the exact commands that are run, the process-group
  teardown, the model check on Ollama's `/api/tags` reply, and the decisions of
  every start-up flow as state machines (port waits, runtime provisioning, the
  desktop start-up, the desktop window's start, and the command-line
  bootstrapper), with proved laws about their runs — among them that a launch
  that finds an instance's engine running starts nothing and only brings its
  console to the front, that every process group started is handed over for
  the exit teardown (or guarded against Ctrl+C) in the very step that records
  it, and that Ctrl+C ends start-up at once.
- `app/` is the program around it: it performs the actions the machines ask
  for (spawning processes, probing ports, HTTP calls to Ollama, signals).
- `tests/` runs the library on concrete scenarios.
