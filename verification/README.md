# xrepotui

A terminal dashboard for watching several GitHub repositories at once:
repository summaries, recent commits, open pull requests, workflow runs and
their logs.

## Layout

- `src/` is the library, written in Verus and verified:
  - `navigation` – the view stack, breadcrumbs, filter input, and vim-style
    list and scroll state;
  - `config` – configuration values, their validation, and the choice of the
    GitHub token;
  - `github` – the models, the TTL cache, the retry policy, and the mapping of
    GitHub's repository, commit, pull request and workflow run records onto
    the models;
  - `app_state` – the application state and what each event does to it;
  - `ui` – the texts the screens show, and which rows and lines they show;
  - `text` – string helpers with their specifications.
- `app/` is the program around it: reading the configuration file, the
  network requests (with the field-for-field conversion of GitHub's job and
  step records), the terminal, the event loop, and the layout and colours of
  the screens.
- `tests/` exercises the library on concrete values.
