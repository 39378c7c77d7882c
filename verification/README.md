# shared_context

Shared engineering context: what a team decided about its code, where that code is, and which of it
may be brought to attention automatically.

`src/` is the library. Every item is verified with Verus; the contracts speak of mathematical models
(`Seq`, `Set`, `Map`, `Multiset` and a `…View` struct per data type).

| Part | Modules |
| --- | --- |
| Vocabulary | `error`, `value`, `text`, `lexical`, `order`, `collections`, `json`, `digest`, `checks`, `ids` |
| Domain values and their rules | `model`, `engineering`, `hints`, `task`, `working_intent`, `episode`, `confirmation` |
| Event reduction | `events`, `definitions`, `ownership`, `dag`, `lineage`, `governance`, `contexts`, `conflicts`, `statuses`, `pairs`, `candidates`, `confirmed`, `gather`, `reducer`, `laws` |
| Engineering graph | `sources`, `extract`, `snapshot`, `graph_contexts`, `graph_build`, `resolver`, `relocation`, `focus` |
| Local storage decisions | `registry`, `storage` |

`reduce` turns a list of events into one projection that depends on the multiset of events alone.
`RepositoryScanner::start`, `SourceScan` and `SourceParse` are a scan as a state machine: the caller
looks at the file system and hands over what it saw. `EngineeringReferenceResolver` resolves
references against the snapshots that scans commit.

What Verus believes without proof stands in wrappers and specifications next to the code that uses
them: SHA-256 (`digest`), JSON text (`json`), UUIDs (`ids`), and a few functions of the standard
library on characters and UTF-8 (`text`, `checks`, `lexical`, `working_intent`, `sources`).

`app/` is ordinary Rust around the library: SQLite, Git, the file system, and serializable copies of
the library's types. `tests/` runs the library from outside.
