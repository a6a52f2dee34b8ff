# lazytrees

A manager for Git worktrees: a terminal interface, and commands for scripts.

`src/` is the library. It holds every decision of the program, and Verus proves of each what its
contract says. Nothing in it runs a program or touches a file: a task is a state that names an
`Effect`, and goes on with the `Reply` to it.

| module | what it holds |
| --- | --- |
| `text`, `path`, `shell` | text, Unix paths, and words for a shell |
| `error`, `process` | errors, and requests to the system with their replies |
| `git`, `listing` | repositories and worktrees, and the listing that Git prints |
| `plan` | the plan for a new worktree, and its creation |
| `tmux` | names for sessions, and their opening |
| `cli`, `prompt`, `commands` | arguments, questions, and the commands themselves |
| `tui` | the terminal interface: what each key and each reply does |
| `layout`, `view` | where things stand on the screen, and what they look like |

Proof functions that begin with `law_` state what holds of several functions together.

`app/` is the program around it: it carries out effects, hands keys on, and draws with ratatui.
`tests/` runs the library on concrete values.
