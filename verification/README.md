# llm

Message models of several LLM provider protocols (OpenAI Chat Completions,
Anthropic Messages, Google Gemini, AWS Bedrock Converse), the conversions
between each of them and one unified form, and the rules of the service
that routes requests to the providers or passes them through to Anthropic.

- `src/` is the library, written in Verus. Its functions carry contracts
  and are proved against them, except the few small wrappers marked
  `#[verifier::external_body]` in `src/json.rs`, `src/sys.rs` and
  `src/text.rs`: they call `serde_json`, `uuid` or std (JSON text, the
  clock, random ids, `Debug` escaping, `String::push`), and their contracts
  are believed, not proved. `src/laws.rs` states and proves what holds
  across functions, such as which protocol requests pass through the
  unified form unchanged.
- `tests/` runs the library on concrete values.
- `app/` is ordinary Rust around the library: the wire forms with their
  `serde` derives, the HTTP and SDK calls of the Anthropic, OpenAI and
  Bedrock providers and Google's model listing, and the pass-through
  proxy's routes. Google completions are not there: the conversion of a
  Gemini reply has no model here.
