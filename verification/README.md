# abcdodaf

A library for business process (BPMN 2.0), decision (DMN) and architecture
(DoDAF 2.02) models, written in Verus: every function in `src/` carries a
contract. Verus proves each one, except those of the small
`#[verifier::external_body]` wrappers around calls into std, `serde_json`,
`chrono` and `uuid`, whose contracts are trusted as those libraries
document them.

- `src/bpmn`: processes, their builder and XML export, workflow files in JSON
  form and their validation, BPMN XML serialisation and the reading back of
  a document's definitions element, and the decisions of the
  execution runtime (run control, breakpoints, bounded audit trail).
- `src/dmn`: decision graphs (acyclic by construction, topological order),
  hit policies, rule shapes, DMN XML of decision tables.
- `src/dodaf`: the DoDAF views (operational, systems, capability), security
  markings and traceability matrices.
- `src/documentation`: generated process documentation, its Markdown, HTML
  and plain text exports, diagrams, the template library and its built-in
  templates.
- `src/executor`, `src/dev_logger.rs`: the decisions of the executor service
  and of the development log.
- `src/entries.rs`, `src/text.rs`, `src/escape.rs`: keyed entries, text and
  escaping, with their laws.

`app/` holds what is not verified: file, database and network I/O, the
asynchronous runtimes and service, serde forms of the types, and the parts
that compute with floating point (FEEL, decision tables, cost and quality
figures).
