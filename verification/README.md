# homecore-assist

The assist pipeline of a home automation hub: an utterance goes to a
recognizer, to a language-model agent if the recognizer finds no intent, and
to the handler of its intent.

- `src/` is the verified library. It holds the decisions: what is done next
  with an utterance, with a request to the agent process, with starting and
  stopping that process. Each is a function from what has happened to what has
  to be done.
- `app/` is what waits: the async traits, the `node` process, the wire format.
  It does what the library says and reports back.
- `tests/` runs the library.

What the library takes on trust is in `src/json.rs` (`serde_json`) and at the
end of `src/text.rs` (`str::trim`).
