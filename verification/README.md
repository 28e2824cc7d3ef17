# backyard

A job queue (enqueue, pop, acknowledge, fail, retry with exponential backoff,
worker pool) whose rules are proved with Verus.

- `src/` is the verified library. Each module states its behaviour as
  `requires`/`ensures` contracts over mathematical views:
  - `retry`: the backoff (10 s doubled per attempt, plus up to a quarter of
    jitter, never more than an hour) and its laws;
  - `options`, `job`: enqueue options, job identifiers, stored jobs and
    enqueue requests;
  - `worker`: the decisions of the worker pool as step functions (fetcher,
    worker, settlement of each job, start-up plan);
  - `sqlite`: the statements the SQLite backend sends, the rows it reads
    back, and the steps of a pop as a state machine;
  - `lifecycle`: what holds of a job across its runs, with the worker's
    settlements and the backend's statements taken together;
  - `table`: the jobs table with its status and lock columns, as the
    statements leave it (what a pop can hand out, what the depths count);
  - `registry`, `builder`, `redis`, `error`, `text`, `time`.
  Calls into `chrono`, `uuid` and `rand` go through small trusted wrappers
  whose contracts are documented next to them.
- `app/` is the asynchronous shell: the `Queue` trait and its backends on
  `sqlx`, the Tokio worker pool, the job trait with its async `execute`, job
  registration with `inventory`, and the `axum` router. It performs the I/O
  the library asks for and feeds the results back to it.
- `tests/` exercises the library with concrete values.
