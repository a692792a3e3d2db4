# ripit

Backs up and extracts optical discs (DVD, HD-DVD, Blu-ray) with MakeMKV's
console program `makemkvcon`, and reads what the program reports.

The library under `src/` is verified with Verus: every function states its
behaviour in `requires` / `ensures`, and the proofs are checked.

- `text`, `pattern` — strings, numbers and regular expressions as the
  parsers need them.
- `apdefs`, `api` — the codes of MakeMKV's interface and the records of
  `makemkvcon --robot` output (`MSG`, `DRV`, `TCOUNT`, `CINFO`, `TINFO`,
  `SINFO`, `PRGC`, `PRGT`, `PRGV`).
- `mkvcon` — gathering a finished run's output: drives, disc and title
  attributes, streams, message counts, and what a scan yields per title.
- `mkv` — following `makemkvcon` while it runs: the events each line
  raises, the disc's content, and the program's arguments.
- `ripit` — drives and discs, message severities, volume ids, and the
  decisions of a backup or an extraction.
- `cli` — the helpers of the command line program.

`app/` is the command line program `ripit-cli` (`drives`, `unshackle`,
`extract`): it runs `makemkvcon`, talks to the operating system, shows
progress bars, and leaves every decision to the library but those of the
progress display, which work with floating-point percentages.
