# ymessenger

The logic of a native Yandex Messenger / Telemost desktop client, written
in Verus: the functions in `src/` are verified, and what they compute is
stated in their contracts.

* `src/` — the verified library. Parsers and builders of what goes over
  the wire (JSON answers, push-socket frames, Goloom signaling messages),
  the state machines of a call, of an OAuth code exchange or token refresh
  and of a history load, and the in-memory stores. Input and output are
  left to the caller: functions take the clock, the answers of the server
  and the contents of files as arguments and hand back what to send or
  store.
* `tests/` — tests of the library on concrete values.
* `app/` — a command-line front end around the library: HTTP, the push
  socket, files, and the wire format of the signaling messages.

The few calls into other crates (UUIDs, percent-encoding, base64, UTF-8
decoding, timestamps, lower-casing, the clock) are the only trusted items;
each states what it relies on in its doc comment.
