# hotel_orders

Order management for hotels and restaurants: admins and their organisations,
tables with QR codes, menus, orders, and a live feed of orders.

The library under `src/` decides; it is verified with Verus. A request is a
sequence of steps (`flow.rs`). A step either is the answer, or asks for one
effect, and is taken up again with the reply. What the effects mean to a store is
a model in `store.rs` that nothing runs; the laws are stated over it:

- `soundness.rs`: the records of the store fit together, and every request ends;
- `isolation.rs`: admins and listeners stay within their own organisation;
- `laws.rs`, `order_laws.rs`, `account_laws.rs`, `seed_laws.rs`: what requests
  change and show;
- `outcomes.rs`: which requests succeed, and what the others are answered with.

Calls into chrono, uuid, serde_json, argon2 and jsonwebtoken stand in
`clock.rs`, `ids.rs`, `json.rs` and `auth.rs`, and calls of std that Verus has no
contract for in `text.rs` and `clock.rs`; each has a contract that is believed. Prices are carried as the bits of a floating-point number; adding them up
is an effect.

The program under `app/` serves HTTP and WebSockets over SQLite and does what the
steps ask for. The tests under `tests/` run the library with a store in memory.
