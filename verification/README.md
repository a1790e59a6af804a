# ansorum

An answer-first compiler for agent-readable and human-readable knowledge:
typed Markdown answers in, canonical machine Markdown, `answers.json`,
`llms.txt` packs, structured data, audits and evals out.

## Layout

- `src/` — the library, verified with Verus. Each public function states its
  result in `ensures` over spec models (`Seq`, `Set`, views of the data
  types); `src/laws.rs` states and proves properties that span functions.
  - `answer`, `front_matter`, `page_front_matter`, `content_file`: answer
    metadata, front matter merging and validation, content files and their
    machine Markdown.
  - `corpus`, `answers`, `index`, `llms`, `structured`, `site_graph`: the
    answer corpus and the machine outputs built from it.
  - `audit`, `audit_output`, `eval`, `responses`: governance audits, eval
    ranking and verdicts, and the rubric-grading request and reply.
  - `config`, `diagnostics`, `report`, `messages`, `preflight`,
    `observability`, `starter`, `cli`: configuration checks, structured
    diagnostics and command reports, console lines, events, and the starter
    project.
  - `json`, `text`, `order`: the JSON model, string operations and orderings
    the rest is stated over.
- `app/` — the command-line program: argument parsing, reading and writing
  files, HTTP (event hooks, the grading API, `serve`), and JSON/TOML/YAML
  (de)serialization. It hands the library plain values and prints what the
  library returns.
- `tests/` — tests of the library through its public API.
