# ai_provider_sdk

A client SDK for OpenAI-compatible APIs whose request-building, decoding and
policy logic is verified with Verus.

## Layout

- `src/` — the verified library. Every function carries a `requires` /
  `ensures` contract over mathematical models (`Seq`, `Map`, JSON views).
  - `client`, `resources`, `request_options`, `headers`, `files`,
    `pagination`, `types`, `objects`: the main client — configuration from
    options and environment, base-URL normalisation, request URLs and
    headers, the calls of each resource, file listing and pagination,
    request bodies and answer objects.
  - `openai_compat`, `compat_params`, `compat_resources`, `compat_objects`:
    the compact client — configuration, request plans, parameter bodies,
    the calls of every resource, answer objects.
  - `sse`, `sse_frame`, `sse_stream`: server-sent-event decoding, both the
    line decoder and the frame buffer of typed JSON streams.
  - `retry`: retry decisions and backoff.
  - `path`, `webhook`, `json`, `strmap`, `text`: path-segment encoding,
    webhook signatures, the JSON model and shallow merge, ordered string
    maps, text helpers.
  - `provider`, `provider_utils`, `openai_provider`: the provider-neutral
    model interface and the OpenAI adapter (request bodies, answer parsing).
  - `cli`: argument parsing of the command-line tool.
- `tests/` — tests of the library on concrete values.
- `app/` — the runtime around the library: HTTP sending with the retry loop,
  streams, `serde` copies of the answer objects, environment lookup and the
  command line.

## Laws

Properties that hold across calls are stated as public proof functions,
for example `path::law_path_segment_roundtrip`,
`path::law_path_segment_unchanged_iff_safe`,
`json::law_extra_body_overrides`, `webhook::law_signed_webhook_verifies`,
`sse::law_push_split`, `sse_stream::law_frames_split`,
`retry::law_retries_bounded`, `headers::law_extra_headers_override` and
`client::law_configured_client_requests`.

## Checking

Verify the library with Verus; the tests run with `cargo test`.
