# codex-acp

An agent that works on prompts in Codex conversations and speaks the Agent Client Protocol on
standard input and output.

- `src/` is the agent's logic, written in Verus. Each function states what it returns or changes,
  and `src/laws.rs` and `src/run.rs` state what holds of the agent as a whole. A prompt is worked on
  step by step: each step names an action, and what came of the action is handed to the next step.
- `app/` performs those actions: it talks to the client and to the conversations.
- `tests/` runs the logic.
