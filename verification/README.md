# killer_master_data

Master data of an ERP system — business partners, cost accounting objects,
materials and their stock, organizational units — and the routing tables of
the finance gRPC services, written in Verus with the rules of each entity
stated as contracts and proved.

## Layout

- `src/time.rs` — instants (`Timestamp`) and UTC days (`UtcDate`) as plain
  integers; the one clock reading goes through chrono.
- `src/validation.rs` — length rules on text, counted in characters, and the
  report of the rules that were broken, each with its field, message and
  bounds (`ValidationErrors`).
- `src/extensions.rs` — extension fields: JSON values under text keys.
- `src/primitives.rs` — codes, money (hundredths), quantities (thousandths,
  never negative) and random identifiers.
- `src/business_partner.rs`, `src/cost_center.rs`, `src/material.rs`,
  `src/organizational_units.rs` — the entities, their field rules, their
  operations and change events.
- `src/grpc/` — for the treasury, controlling and financial accounting
  services: every method, its request path, and the dispatch of a path to its
  method, with the proof that each path is dispatched to the method it was
  made for.
- `tests/` — tests on concrete values.
- `app/` — serde forms of the data and the error messages.

Each entity's `validate` reports exactly the rules that fail, in the
order of their declaration. The constructors of the organizational units, cost
accounting objects and materials succeed exactly when that list is empty;
those of business partners, their roles and bank accounts check no rule and
always succeed (their own `validate` checks on request). Operations that
change an entity state which fields change and that every other field stays as
it was; the time stamps come from the clock and are the only values left open.
