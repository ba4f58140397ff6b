# person_service

A register of persons behind an HTTP API, with its logic verified by Verus.

- `src/` — the verified library:
  - `domain/` — persons, the inputs that clients send, field updates, the
    validation rules and their messages;
  - `repository.rs` — a register held in memory, with laws on what a read
    gives back after each write;
  - `service.rs` — what the service asks of the storage and what it answers
    for each reply, and laws that tie validation and storage together;
  - `api/` — request and answer shapes, the answer to each error, the
    `Location` of a stored person, status codes;
  - `config.rs` — the settings, from the values of the environment;
  - `text.rs` — white space, blank text, decimal rendering and parsing.
- `app/` — the program: environment, PostgreSQL storage (sqlx), axum
  routes, JSON shapes (serde), logging.
- `tests/` — tests of the library.
