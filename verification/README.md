# convex-doctor

A static checker for [Convex](https://convex.dev) backends: it reads the `convex/` directory of
a project, runs its rules over every source file and over the project as a whole, and gives a
weighted health score from 0 to 100.

The crate is written in Verus. The rules, the score, the configuration, the project scan and the
reports are a verified library under `src/`, and so is what the analyser reads from a single
expression or call (member chains, callee names, identifiers, `ctx.auth` and `process.env`
uses, authentication helpers, filter fields, function configurations and their validators,
indexes, routes, crons, large writes). The command-line program under `app/` reads files,
parses them with oxc and walks oxc's syntax tree to fill a `FileAnalysis`. It hands each
expression it inspects to the library in the library's own form, and each step of the walk
(entering and leaving a function, a loop or a validator, a collected variable, a finished or
exported function) to the library's walk state. What remains unverified is the traversal
itself: which oxc node is visited when, and the conversion of oxc's nodes.

## Layout

- `src/rules/`: the data a file analysis yields, the `Rule` trait, the rules of each category and
  the registry that runs the enabled ones. Every rule's findings are specified exactly over the
  analysis, and every finding carries the rule's id and category.
- `src/scoring.rs`: the score, in exact hundredths of a point, with its laws (a full score with
  no findings, information costs nothing, a finding never raises the score, one rule costs at
  most six points, the order of the findings does not matter, and the closed form of the score
  when each rule's findings share a severity and category).
- `src/config.rs`: rule settings and ignore patterns (globs through the `glob` crate).
- `src/project.rs`: project detection and the choice and order of the files to scan.
- `src/engine.rs`: one run: the files a full or diff run scans, file findings, parse
  failures, project findings, score, CI floor; `.gitignore` lookup.
- `src/syntax.rs`: expressions as plain values and what the analyser reads from them.
- `src/calls.rs`: what the analyser reads from one call, given its callee and arguments.
- `src/analysis.rs`: text-level decisions of the analyser (positions, named imports,
  suppression comments, alias chains, secrets, authentication helpers) and the maps and lists
  it keeps while it walks a file.
- `src/walk.rs`: the state of the walk over a file and how each step changes it.
- `src/reporter.rs`: the score line and the coloured terminal report (colours through
  `owo-colors`).
- `app/`: `main`, file system and git access, the oxc parse and syntax-tree walk (which turns
  each expression it inspects into the library's form), the JSON report.
- `tests/`: tests of the library.
