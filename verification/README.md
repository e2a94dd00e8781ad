# claw10

The verified core of the Claw10 agent-swarm runtime, written in Verus.

`src/` is the library; every function in it is verified against its
contract:

- `policy`: policy rules, bundles and their evaluation (default deny,
  priority-ordered denies).
- `task`, `mission`, `skill`, `worker`, `scheduler`: lifecycle state machines
  and the services that keep tasks, missions, skills, workers and schedules.
- `spawn`: validation of spawn requests against budgets, depth, swarm size
  and delegable permissions.
- `memory`: the admission pipeline for memory candidates.
- `store`: the key-value store contract and an in-memory store.
- `toon`: the TOON context encoder; `prompt`, `contracts`, `validation`,
  `roles`: prompt inputs, output schemas, the schema validator and agent
  roles.
- `router`, `providers`, `openai_compat`: the provider catalog, configuration
  resolution, the model registry, the fallback candidates and the step of a
  call that tries them in order, and the OpenAI-compatible wire decisions
  (event-stream framing, chunk events, reply mapping, HTTP errors). The HTTP
  calls themselves are not made here.
- `tui`, `setup_wizard`, `chat_view`, `pickers`, `sidebar`: word wrapping,
  bold markup, layout arithmetic, the chat screen's layout, the pickers'
  lists, the sidebar's rows, and the setup wizard's steps, key handling and
  screen texts. Drawing on the terminal is not done here.
- `text`, `json`, `ids`, `order`, `table`, `collections`, `domain`, `agent`,
  `telemetry`, `tool`: shared building blocks and data types.

`app/` holds what talks to the world: the sled-backed store, typed store
access through JSON, telemetry log lines, configuration file discovery,
running shell commands, and the checks that need floating point.

`tests/` exercises the library through its public interface.
