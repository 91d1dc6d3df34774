# auto_handoff

A session whose context has been compacted often enough hands its work over to a fresh
session: it is asked for a prompt that sums up the work, and the fresh session starts with
the answer. This crate holds the decisions of that hand-off, verified with Verus.

- `src/app_server/`: the hand-off of a thread that the app server runs. `protocol` has the
  events it reads, `state` the state machine, `laws` what holds of all runs.
- `src/chat_widget/`: the hand-off of a session that the terminal interface drives itself.
  `state` has the state machine, `widget` the widget around it, `laws` what holds of all runs.
- `src/prompt.rs`: the prompt that asks for the hand-off.
- `src/counting.rs`, `src/text.rs`: thresholds, trimming, numbers and displayed paths.
- `app/`: carries out what the widget asks for, over queues.

The hand-off is off while no threshold is configured or the threshold is 0. Internal sessions
never hand off, nor does a widget that does not drive its session itself.

Two facts about the standard library are taken as given: what `str::trim` removes, and that
`Path::display` shows a path in one way. Both stand in `src/text.rs`.
