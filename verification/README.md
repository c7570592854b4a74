# rs_chat

The core of a self-hosted LLM chat server, written in Verus: what the server decides and
computes, each function with a contract that Verus proves.

- `src/provider`: provider-independent chat types; request building and stream-event parsing
  for Anthropic, OpenAI-compatible APIs, Ollama and OpenRouter; the lorem test provider.
- `src/stream`: chat-stream keys, the accumulation of a provider's response into flushed chunks
  and a complete response (with its laws), reading stream events, the streamer's saved message.
- `src/tools`: tool configuration, JSON schemas, the HTTP request tool's templating, web search
  requests and results, system tools (code runner, files, system info), the Docker executor.
- `src/storage`: upload checks and the paths of the local file storage.
- `src/utils`: API-key encryption, provider selection, chat titles, stored streams.
- `src/json.rs`, `src/text.rs`, `src/ids.rs`: JSON values and their text, string helpers, UUIDs.

Calls into outside crates (uuid, serde_json, jsonschema, subst, urlencoding, hex, aes-gcm,
chrono, reqwest's header checks) stand behind `#[verifier::external_body]` functions whose contracts are trusted.

`app/` holds the unverified glue: `serde_json` conversions, SSE decoding, sending requests with
`reqwest`, file I/O, the timed lorem stream, JSON schemas from `schemars`, and a logging channel.

Some services that the server talks to are not dependencies of this crate: the web framework
(rocket), the Redis client (fred), the database layer (diesel), the Docker client (bollard) and
the tinistream and tinirun clients. The library holds the decisions around them as plain
functions (the stream entries to write, the reader's next step, the container settings, the
reports of a run), so the code that reaches those services only carries values in and out.

`jsonschema` is used without its default features: schema references are not fetched over the
network or from files, so whether a schema or an instance is valid depends on the texts alone.
