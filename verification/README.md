# current_weather

A poller that reads current weather conditions from a weather API every few
seconds and records them in InfluxDB (or in the log), with Prometheus metrics
about its requests and its host.

- `src/` is the verified library (Verus): compass directions, the request
  URL, the masked dump of the API settings, the request status labels, the
  record header made from a report, the database client's address, the choice
  of sink, and the polling loop's state machine, each with its contract; the
  laws of the compass and of the polling loop are proof functions there.
- `app/` is the program: configuration loading, the HTTP requests, the
  InfluxDB writes, the floating-point measurements, the metrics server and
  the signal handling.
- `tests/` exercises the library on concrete values.
