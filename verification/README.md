# bullmq_rs

A Redis-backed job queue compatible with BullMQ v5 (same key layout, same
Lua scripts, same event stream), split into a verified library and an I/O
layer.

`src/` is the library, verified with Verus:

- `types` – job states, job and repeat options and their builders, backoff
  strategies, worker options. Durations are milliseconds.
- `queue` – which states a listing covers and in what order, how ids are
  read from lists and sorted sets, job counts, the choice of the add script,
  bulk id assignment, the checks and plans of retry, clean, drain and lock
  extension, and the queue builder.
- `scheduler`, `repeat` – job schedulers: the checks of an upsert, the next
  cron occurrence (through `croner` and `chrono-tz`), the options of each
  iteration's job and the JSON options stored with a scheduler.
- `scripts` – for each Lua script, the keys and arguments it is called with
  and the decoder of its reply.
- `queue_events` – decoding of event stream entries into typed events and
  the decisions of the stream-reading loop.
- `flow_producer` – the plan of a flow (a parent/child job tree): one step
  per job in pre-order, with its queue key, its parent's keys and the
  `waiting-children` set of a job with children.
- `resp`, `json`, `text` – Redis replies, JSON text (validity, string
  literals, objects and arrays, through `serde_json`), decimal encoding and
  parsing.

`app/` holds the Redis connections and commands, the event-reading task,
serde forms of the option types and the error type that carries Redis and
JSON errors.
