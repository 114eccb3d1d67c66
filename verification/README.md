# reliableq

A durable background-job queue whose rules are verified with Verus. Jobs are
submitted, claimed under a lease, executed, retried with backoff, given up, and
brought back by an operator; every execution of a job charges under one
idempotency key. Execution is at least once, not exactly once.

- `src/` is the library. Everything in it is verified:
  - `domain`, `failure`, `retry`, `validation`, `idempotency`, `redact`,
    `config`, `worker`: the rules that need no stored state;
  - `db`: the stored rows, the operations on them, the invariant that they keep
    (`db::soundness`) and what a user can rely on (`db::laws`);
  - `api`: what requests to the queue are answered;
  - `fake_charge`: the charge service and its injected failures;
  - `bench`: which benchmark runs there are, what they do, how they are judged
    and recorded;
  - `text`, `time`, `ids`: the vocabulary of the others.
- `app/` is the program around it: PostgreSQL, HTTP, processes, floating point
  statistics.
- `tests/` runs the library on concrete values.

What the library does not prove but takes from other crates stands behind small
functions marked `external_body`, each with a comment on what it claims: UUID
text (`ids`), SHA-256 (`redact`), Base64, RFC 3339 and UTF-8 (`api::cursor`),
time stamps in file names (`bench::record`), random jitter (`retry`), and the
quoting of text in messages (`text`).
