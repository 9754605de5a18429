# guild

Guild watches a GitHub repository for issues carrying a label, opens a
pipeline of stages for each one (ending in a pull request), and shows the
work on a terminal dashboard.

This build holds no stage runner: the copilot driver that carries a pipeline
from one stage to the next is not part of it. The poll loop registers issues,
reports each pipeline that is due to advance, and prunes finished ones, but no
pipeline moves past its stage.

`src/` is the verified library (Verus):

- `pipeline` — the stages, their order and names, and the per-issue record.
- `registry` — the map of tracked pipelines: registering fetched issues,
  choosing the pipelines to advance, dropping finished ones.
- `daemon` — one poll cycle as decisions: what a poll's outcome does, and
  whether to wait or stop.
- `dashboard` — the views the dashboard shows, ordered by issue number, the
  poll status and the uptime text.
- `screen` — the styled text of the header, pipeline rows and footer, the
  quit keys and the banner colours.
- `github` — the GitHub records, the `gh`/`git` command lines and the reading
  of a command's result.
- `config`, `text`, `paths`, `time` — options, text building blocks, and the
  trusted calls into `std::path` and `std::time`.

`app/` is the program around it: argument parsing, running `gh` and `git`,
JSON, the state file, the terminal and the poll loop.
