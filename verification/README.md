# eks

Candidate-list administration for a political group: persons, candidate lists per
electoral district, and the group's authorised agents and (substitute) list submitters.
Every change is an event; the store's state is what its events, applied in order,
produce, and the events are kept, sealed with AES-256-GCM, in a stream file.

## Layout

- `src/` — the library, verified with Verus.
  - `store.rs`: the event-sourced store, what each event does (`apply_event`), the
    journal of applied events, and replaying stored events.
  - `table.rs`: records with unique keys and their map view.
  - `persons.rs`, `candidate_lists.rs`, `political_groups.rs`: reading and changing the
    store; `sorting.rs` orders persons for listings.
  - `candidate_pages.rs`, `person_pages.rs`: what the pages do once a form is accepted.
  - `stream.rs`: record framing in the stream file and the laws of replaying it.
  - `crypto.rs`, `config.rs`: sealing payloads, deriving the key from configuration.
  - `laws.rs`: what create, update and delete events guarantee.
  - `fixtures/`: demonstration data.
- `app/` — the code around the library: serialisable copies of the records, the shared
  store with its stream file on disk, and configuration from the environment.
- `tests/` — tests of the library.
