# menahel

A task manager: a web service for users, projects, tasks, assignments and
comments, and a terminal client that shows a project and its task tree.

- `src/` is the verified library, checked by Verus:
  - `errors/`: the error keys, their English and Japanese messages, the
    message table and its construction, and the errors of data access and of
    request handlers with their HTTP statuses;
  - `enums.rs`: task levels and statuses and their codes;
  - `models.rs`, `utils.rs`: the records of the service and the password rule;
  - `handlers/`: what the request handlers decide before they reach the
    database: query targets, validation, lookups, id checks, password hashing;
  - `client/`: the terminal client's state machine: command parsing, key
    mapping, panes and focus, the command line and its log, the project store
    and the task tree.
- `app/` is the terminal client's shell: the event loop, terminal input,
  drawing with ratatui and the HTTP requests.
- `tests/` exercises the library.

The web server's shell is not part of this crate: its routes, the HTTP
answers it builds and its database layer are not reproduced, because the
database code it calls is not available. What the handlers decide before
they reach the database (query targets, ids, pages, errors and the bodies of
list and error answers) is in `src/handlers/`.
