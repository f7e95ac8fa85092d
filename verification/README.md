# flus

Scaffolds the basic structure of a Flutter project: `flus create <name>` runs
`flutter create`, renders the project's Dart sources and Makefile from tera
templates, creates the feature directories, declares the `zren` git
dependency in `pubspec.yaml` and fetches the dependencies.

- `src/` is the library, verified with Verus: path joining and extension
  removal with Unix path semantics, whitespace trimming, the `pubspec.yaml`
  edit, the judgement of a finished command, the template context and engine
  (backed by tera), and the exact list of steps a run consists of. The
  engine takes templates written in the part of tera's syntax under which
  tera's renderer cannot panic (variables with string filters, `if`
  conditions on variables, comments and raw blocks; see
  `src/template/simple.rs`), and refuses others before tera sees them.
- `app/` is the program: it parses the command line with clap, performs the
  planned steps (files, processes, the spinner) and reads the templates from
  the `templates` directory.
- `tests/` runs the library on concrete inputs.
