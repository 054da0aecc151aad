# pg_otel

A PostgreSQL extension that exports query plans and their instrumentation as
OpenTelemetry spans, with its decision logic verified by Verus.

- `src/` is the verified library: the settings and the exporter
  configuration (`config`), what the executor hooks decide about a query and
  its plan tree (`postgres`), the W3C traceparent that links a query's spans
  to the caller's trace (`trace`), the spans (`span`), the bounded queue that carries
  them to the background worker (`queue`, over the `heapless` containers
  declared in `bounded`), the worker's decisions (`worker`), and text handling
  (`text`).
- `app/` is the extension itself, built with pgrx: it reads PostgreSQL's
  structures into the library's values, holds the queue in shared memory,
  signals the worker, and builds and runs the OTLP exporter.
- `tests/` runs the library on concrete values.
