# market_bot

A marketplace library for people and AI clients, verified with Verus.

- `src/catalog`: products and their review life cycle, variants, inventory
  with idempotent reservations, and the catalog service.
- `src/cart`: carts that merge lines of one variant at a fixed price snapshot.
- `src/ai_agent`: scoped, expiring grants for AI clients; the user's purchase
  policy; catalog facts; the agent that searches, fills carts and plans
  auto-purchases; and the audit trail, whose text is redacted
  (`audit_laws.rs` proves that no card number, whole or written in
  groups, no payment token and no address survives, and that redaction is
  stable).
- `src/api`: what the HTTP endpoints compute: request identity, error
  answers, cart, checkout, product and seller bodies, and the AI endpoints.
- `src/worker`: the decisions of the background jobs.
- `app/`: the axum server around the library.

`tests/` exercises the library from outside.
