# chronos

The decision logic of the Chronos delay queue, verified with Verus.

- `src/` — the verified library: configuration from environment values
  (`config`, `decimal`), message headers and routing by deadline
  (`headers`, `timestamp`, `receiver`), the retry policy of delayed inserts,
  metric definitions and label combinations (`metric_definitions`,
  `metric_labels`), the metrics endpoint's answers (`metrics_server`) and
  the tracing service name (`telemetry`).
- `app/` — the service around it: Kafka, Postgres, Prometheus (whose
  histograms are floating point), the HTTP endpoint and the Jaeger pipeline.
- `tests/` — tests of the library.
