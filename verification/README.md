# omicron_api

The HTTP-layer rules of an API server and of a bootstrap agent client,
verified with Verus.

- `src/framing.rs`: newline framing of streamed bodies, and the proof that a
  reader splitting a body at its newlines gets each item back.
- `src/api_http_util.rs`: how a stream item is framed, and which status,
  media type and body each kind of handler answers with.
- `src/bootstrap_agent_client.rs`: the share request a client sends and what
  a reply's status lets it do.
- `src/body.rs`: the trusted declarations for `bytes::Bytes` and
  `serde_json::Error`.
- `app/`: serde serialisation of objects, actix-web responses, and the
  network exchange with a bootstrap agent.
