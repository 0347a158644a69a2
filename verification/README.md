# paho_mqtt (verified core)

The data structures and rules of an MQTT client library, written in Verus
and proved against their contracts:

- `topic_levels`, `topic`, `topic_matcher`: publishing destinations with
  topic aliases, topic filters with `+` and `#` wildcards, a filter type and
  a collection keyed by filters.
- `properties`: MQTT v5 property codes and types, single properties whose
  value always has the type its code fixes, and ordered property lists with
  their wire size.
- `message`, `will_options`, `connect_options`, `create_options`,
  `disconnect_options`, `subscribe_options`, `response_options`,
  `ssl_options`, `string_collection`: the option sets and their builders,
  with the C library's structs modelled as plain fields.
- `server_response`, `token`: responses and completion data built from what
  the client engine reports, and what waiting on an operation gives.
- `errors`, `reason_code`, `types`, `c_trace`: return codes, reason codes,
  QoS and version numbers, and log levels.

`app/` holds what the verifier does not take: the error type with
`std::error::Error` and `Display`, display wrappers, the bridge to the `log`
crate's level type, and topic matching over any iterator of pairs.
