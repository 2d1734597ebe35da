# athenaeum

Verified primitives for Discord interaction webhooks and bot REST requests, written in Verus.

- `src/` is the verified library: snowflake validation (`discord`); interaction envelopes and
  callback responses with their protocol codes (`interaction`); bot requests planned with their
  method, URL and `Authorization` header, and interaction-callback planning (`http`); required
  fields of JSON secrets (`secrets`); and the character-level text operations they share
  (`text`). Calls into `reqwest` and `serde_json` stand behind small trusted wrappers whose
  contracts record what each call is handed; the AWS SDK client type is only held here.
- `app/` holds what Verus does not check: the serde JSON forms of the library's types, the
  asynchronous delivery of interaction callbacks, and retrieval of secrets from AWS.
- `tests/` exercises the library through its public API.
