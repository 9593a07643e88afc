# ncl — Nice Code Launcher

A command-line tool that scaffolds projects from templates, checks their
dependencies, runs their hooks (`ncl run <job>`), lists TODO comments, and
sets up the project's GitHub repository and Coolify deployment.

## Layout

- `src/` — the verified library (Verus). It holds the tool's logic with
  its contracts:
  - `execution` — how a hook command is understood (`docker:service:cmd`,
    Compose lifecycle commands, host commands) and which program and
    arguments run it;
  - `templates` — template metadata, hooks, placeholder filling, the
    `ncl run` job resolution;
  - `config` — the global and per-project configuration, tokens, and the
    migration of legacy fields;
  - `scaffold` — the decisions of a project's initialization, as a step
    function with its rollback bookkeeping;
  - `coolify`, `github`, `git`, `cicd` — request bodies, URLs, selection
    lists and validations of the integrations;
  - `check`, `task`, `init`, `doctor` — the logic of the commands of the
    same names; `cleanup` — the removal of a project's remote resources;
    `keyring` — the interpretation of the credential store's answers;
  - `text`, `assoc` — string and keyed-list helpers with their specs.
- `app/` — the program around the library: argument parsing, prompts,
  files, processes, HTTP and git, following the library's decisions.
- `tests/` — tests of the library's public functions.
