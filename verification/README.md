# job_scheduler

The verified core of a distributed job scheduler. A server accepts jobs over
HTTP and stores them in PostgreSQL; workers claim pending jobs by priority
under a lease, run them (e-mail, webhook), and record the outcome; failed jobs
are retried with exponential backoff until their retry limit; recurring jobs
are rescheduled from their cron expression.

- `src/` holds the decisions, proved with Verus: which handler runs a job,
  how its outcome settles it (complete, fail, retry with `2^attempts`
  seconds), which metric counts it, how a webhook or e-mail payload is
  checked, how a submission becomes a job, the SQL of a job listing, the
  next run of a recurring job (the occurrence croner finds, named but not
  restated) and the plan of a rescheduling run; and, for the worker's main
  loop, which event stops it; and, for the supervisor, which exited workers
  are respawned and when it stops.
- `app/` runs the processes (`server`, `worker`, `supervisor`,
  `api_server`): database queries, HTTP, SMTP, signals and metrics export.
- `tests/` exercises the library on concrete values.
