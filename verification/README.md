# drasi_reactions

A verified library for two Drasi reactions.

- **State machine.** A reaction maps continuous-query results to per-entity
  state transitions (`config`, `engine`), and a companion source exposes every
  entity's current state as a graph node (`node`). The two are linked by source
  id through a registry (`registry`); `component` holds the reaction, the
  source and the builder of the pair, `descriptor` their plugin descriptors.
- **Dashboard.** The reaction's server settings and builder, and the
  configuration of predefined dashboards and its mapping to
  the model the dashboard serves (`dashboard`).

Entity keys are rendered from Handlebars key templates. A configuration whose
key template uses a partial (`{{> name}}`, `{{#> name}}`) or a decorator
(`{{* ...}}`, `{{#* inline ...}}`) is refused with `UnsupportedKeyTemplate`:
such templates can make rendering recurse without end. An entity's node
carries the pass-through fields of the row that moved it into its current
state.

`laws` states what holds across calls. `keyed` is the string-keyed store the
others build on. `template`, `json` and `clock` are the points where the
library calls Handlebars, `serde_json` and `chrono`.

`app/` is the host side: JSON (de)serialisation, configuration schemas, the
process-wide registry over tokio channels, and the loops that read and write
the state store.
