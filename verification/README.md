# qingjian

The decisions behind two parts of the Qingjian input method for Windows, verified with Verus:
the settings pages (which entry each drop-down selects, what each toggle shows, how a custom
phrase is previewed and keyed) and the text service's activation and deactivation (which step
follows which outcome, and what the service holds afterwards).

- `src/` — the verified library.
- `tests/` — tests of the library on concrete values.
- `app/` — the Windows glue: windows-reactor pages and the Text Services Framework processor,
  which do the outside work and ask the library what to do.
