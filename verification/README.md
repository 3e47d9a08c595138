# network_test

A small framed networking library: a `Server` listens on a port and serves the
most recent client, a `Client` connects to it, and each side hands its data to
a background worker that writes and reads JSON frames tagged with a counter.

- `src/` is the verified library (Verus): the frame counters of a connection
  and the order judgement of received frames (`link`), what the client's and
  the server's workers do with each event, how the server starts and accepts
  connections, and what the user's end makes of its worker's messages
  (`client`, `server`), with the errors (`NetError`). The laws of the frame
  counters are proof functions in `src/link.rs`, stated over runs of frames
  (`sent_counters`, `judgements`, `expected_after`); `lemma_send_extends_run`
  and `lemma_receive_extends_run` show that one more `frame_for`/`frame_sent`
  or `receive` extends such a run exactly as those functions' contracts state,
  and `lemma_judged_against_previous` says each frame after the first is in
  order exactly when it carries the previous frame's counter plus one.
  `Step::into_parts` states how each step ends (or continues) a worker.
- `app/` holds the threads, sockets and JSON around it: `Client`, `Server`,
  the loops of the workers, and copies of `Frame` and `NetError` with serde's
  and thiserror's derives; `Client` and `Server` report the latter.
- `tests/` runs the library on concrete values.
