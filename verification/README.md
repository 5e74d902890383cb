# fontspector

Quality checks for OpenType fonts and Google Fonts family metadata, written in Verus: each
check states in its contract exactly which findings it reports for a given font, in terms of
what the font readers and the data crates it calls return, and Verus proves that the code
reports them.

## Layout

- `src/` — the verified library.
  - `font.rs`: what the checks read from a font binary. The reading is done by fontations;
    each reader hands back plain values, and its result is named by a spec function of the
    font's bytes.
  - `status.rs`, `outcome.rs`, `result.rs`: findings, check errors and check results.
  - `monotype.rs`, `opentype.rs`, `gf_fonts.rs`, `gf_metadata.rs`, `googlefonts.rs`,
    `fontwerk.rs`, `unique_names.rs`, `cjk.rs`: the checks.
  - `check.rs`: the list of checks, what each applies to, and running one.
  - `profile.rs`, `hotfix.rs`, `reporters.rs`: profiles, hotfixes and what a run reports.
  - `sfnt.rs`: removing and adding tables by rewriting a font's bytes.
  - `laws.rs`: properties that relate several functions (the table round trip is in
    `sfnt.rs`).
- `tests/` — tests on fonts built with write-fonts.
- `app/` — the command line: reading files, writing reports, saving fixed fonts, the CJK
  vertical metrics check, whose decisions rest on floating-point arithmetic, and the
  trigonometry of the caret slope check (whose readings and verdict are in `opentype.rs`).
