# behavior_tree

An event-based behavior tree whose logic is verified with Verus.

- `src/` is the library. Every node (action, condition, sequence, fallback, loop,
  blocking check) is a state machine: a reaction changes its state and returns the
  messages to send, and its contract says exactly which. The tree itself, its exports to
  Groot XML and JSON, and the messages to a watching websocket are there too. Laws that
  span several reactions or several kinds of node are public proof functions, named
  `law_...`.
- `app/` runs the state machines as tokio tasks: it owns the channels, the timers, the
  files and the socket.
- `tests/` runs single nodes, whole trees under a small scheduler, and the exports.
