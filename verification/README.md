# cstyle

A verified library for a formatter of C, C++ and Objective-C sources: the
model of its options, the parser of option files and command-line options,
the decisions of its command line (arguments, console options, target
patterns and wildcards, reports) and the line classifiers that its
formatting passes share. Each function states its behaviour in `requires` /
`ensures` contracts that Verus proves.

Layout:

- `src/config/` — the options (`FormatOptions` and its value types), the
  option grammar as spec functions, the parser and the application of
  options, with the laws on styles and on options that override each other.
- `src/cli/` — argument parsing, console options, target patterns, the
  wildcard matcher (proved to decide glob matching wherever the text holds
  no `*`, which it takes literally first), reports and the choice
  of option files from settings.
- `src/formatter/` — column arithmetic, line classifiers and line-shape
  scanners, and the assembly-macro pass-through.
- `src/text.rs`, `src/source.rs` — character and string helpers, identifier
  rules and line-ending normalization.
- `app/` — the file-system and environment side: reading option files,
  searching project option files, expanding targets on disk, the help text.
- `tests/` — tests run against the compiled library.
