# warden

A code-quality guardian for AI-assisted development: it packs a project
into a context file for a language model, applies the model's replies
(files, manifests, plans) after validating them, keeps a roadmap of tasks,
and checks source files against a small set of laws (file size, function
naming, arity, nesting, complexity, banned calls). The library decides
these laws from what a walk of a file's syntax tree found: `syntax`
parses a file with tree-sitter and runs the naming and banned-call queries
(no arity, nesting or complexity is measured). The command-line program
estimates tokens by length.

The library in `src/` is written in Verus; its executable functions carry
contracts that the verifier proves.

- `text` — the string model (lines, trimming, search, replace, joining)
  that the other modules' contracts are written in.
- `pattern` — compiled regular expressions, through the `regex` crate.
- `roadmap` — the Markdown roadmap: its parser, the line-oriented command
  language (parsing, printing, applying), diffs between roadmaps, and the
  traceability audit.
- `roadmap_v2` — the task store: commands on tasks and its Markdown view.
- `apply` — the reply protocol: plan and file extraction, the manifest,
  validation of paths and contents, and commit messages.
- `syntax` — the tree-sitter walk of a file and its extension, through trusted calls.
- `analysis` — the laws' decisions over what a syntax walk found, file
  reports and scan reports.
- `config`, `project`, `constants`, `discovery`, `detection`, `lang`,
  `checks`, `prompt`, `pack`, `clean`, `clipboard`, `cli` — configuration
  defaults, project detection, file filtering, prompt texts, the packed
  context formats and the smaller command decisions.

Laws that relate several operations (such as adding then deleting a task,
printing then parsing a command, or slugging a slug) are public proof
functions named `law_*`.

`app/` holds the command-line program: argument parsing, files, git,
the clipboard and terminal output around the library. `tests/` runs the
library on concrete values.
