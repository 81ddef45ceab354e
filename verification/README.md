# PaperFlow

A terminal assistant for academic papers: it searches arXiv and Semantic
Scholar, filters and scores papers against the user's interests, asks a
language model for summaries and translations, stores papers in SQLite and
reads summaries aloud. It also serves a small HTTP API for a terminal front end.

## Layout

- `src/` — the library, verified with Verus: text operations, the Atom feed
  reader, filtering and scoring, ordering and de-duplication, Semantic Scholar
  records, prompts, model endpoints and replies, configuration layering, the
  HTTP handlers' computations, the command-line modes' decisions, the
  scheduler's settings, the `say` arguments, the list view's state and the
  database rows.
- `tests/` — tests of the library on concrete values.
- `app/` — the program around it: the command line, network calls, the
  database, the HTTP server, files and the `say` command. Started under the
  name `server`, it runs the HTTP service; otherwise the command-line modes.
