# struct-llm

Structured outputs from language models through tool calls, verified with Verus.

An output type is offered to a model as a tool (a name, a description and the
JSON Schema of its arguments). Requests that offer or force the tool are built
for OpenAI, Anthropic and OpenAI-compatible local models; tool calls are read
out of responses, whole or streamed; and a call's arguments are validated
against the type's schema before they become a value of the type.

Layout:

- `src/` is the verified library. `json` holds the JSON model and the one call
  into `serde_json` (reading text); `schema` the schema builders and the
  validator; `provider` request building; `tool` reading tool calls out of
  responses and checking them; `streaming` the SSE parser; `derive` what
  `#[derive(StructuredOutput)]` makes of a struct; `decode` and `text` small
  readers that the others share.
- `tests/` runs the library on concrete values.
- `app/` holds what lives with `serde`, `thiserror` and `syn`: conversions to
  and from `serde_json::Value`, typed reading of arguments through `serde`,
  displayable errors, and the token expansion of the derive.
