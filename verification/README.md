# server_tester

Simulates backend HTTP servers for testing monitoring tools. A management API
and Web UI create virtual servers on chosen ports and switch each between
four modes: up, refusing connections, answering 503, or accepting
connections and never answering.

Layout:

- `src/` — the verified library (Verus):
  - `state.rs`: server modes, configurations, request bodies, replies, errors;
  - `management.rs`: the registry of servers and what each management
    request does to it;
  - `virtual_server.rs`: the listener a mode calls for and the reply a
    virtual server gives;
  - `text.rs`: HTML escaping and decimal rendering;
  - `trusted.rs`: the calls into std, `http` (through axum), `uuid` and
    `chrono`, with the contracts the proofs rely on;
  - `laws.rs`: properties that span operations (ports stay distinct, reads
    give back writes, escaping removes markup and can be undone).
- `app/` — the program: command line, HTTP routing, listeners, JSON files.
- `tests/` — tests of the library.
