# lauren_chatbot

A banking assistant service: an in-memory ledger, human approval of transfers,
several chat agents that hand conversations to one another, output guardrails,
a small public knowledge base, signed request bodies and short-lived WebSocket
tokens, and an OpenAI-compatible LLM client.

- `src/` is the library, written in Verus; amounts are integer cents. Its own
  functions are verified by Verus against their contracts. Calls into outside
  crates and std (hex, base64, HMAC-SHA256, JSON field reads, UUIDs, the clock,
  tokio channels, I/O error text) go through small trusted wrappers that Verus
  does not verify: their contracts, where they have one, say what the crates
  document, and some (the clock, channel delivery) promise nothing.
- `app/` is the HTTP/WebSocket server around it (axum, tokio, serde, reqwest)
  and the glue to the agent runtime.
- `tests/` exercise the library.

Verified laws include: transfers conserve money and move exactly the amount;
an approval authorizes exactly one transfer of the approved recipient and
amount; a WebSocket token opens, under the key that sealed it, to exactly its
payload; a signature made with a key verifies with it; a handoff summary is
what the next agent is told.
