# frontend

The SecNet security-operations console: a browser client for alerts,
traffic, devices, detection rules, the blocklist and notification channels.

- `src/` is the console's logic, verified with Verus: the data model, the
  table filters, the bounded live feeds, the dashboard figures, the shape of
  every API request and how its reply is read, the session and navigation
  decisions, the form defaults and the labels the views show. `src/laws.rs`
  states and proves the properties that span several of these functions.
- `app/` is the Leptos application around it: rendering, browser storage,
  HTTP and WebSocket I/O, and the serde copies of the model types.
- `tests/` runs the library on concrete values.
