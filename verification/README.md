# pieced

The rules of the Pieced arena game that can be stated and proved without the
engine: the deterministic random stream, the pipeline warm-up gate, the
`--knobs` grammar and the look it resolves to, halo tags, frame pacing, the
nearest-rank percentile used by the frame statistics, the pause menu, its settings, autosave and window changes,
the build grid's vocabulary, and the scripted scenarios' bookkeeping (the
command line, the exit countdown, the gallery's table of views and its
schedule, the perf session's activity cycles and piece cleanup, the steps of
the time-to-kill, HUD and effects sessions, and the sky-band frame
comparison).

Layout:

- `src/` — the library, written in Verus. Every function carries a contract
  over mathematical models (`Seq`, `int`, views of the types), and the
  properties that span several calls stand as public proof functions
  (`lemma_*`) next to the code they speak of.
- `tests/` — ordinary Rust tests of the library on concrete values.
- `app/` — the launcher around the library (the engine half of the game —
  rendering, physics, UI, the scenario directors' world work — is not part of
  this crate): command-line handling, the
  floating-point edges (uniform draws, render sizes, halo colors, the frame
  statistics themselves, the perf timeline) and the saved settings with their serde
  derives.
