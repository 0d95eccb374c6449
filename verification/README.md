# filewatcher

The file watcher "IDE" of an editor that runs in a web browser. It lets a user
browse the file system for a file, opens the file in the editor's client, tells
the client when the file changes on disk, and saves what the client sends.

- `src/` is a library that decides what to do, verified with Verus. It does no
  I/O: it takes what has happened and tells what is to be done.
  - `task`, `task_model`, `task_laws`: the task of one open file, a state machine.
  - `browser`, `browser_laws`: the pages of the file browser.
  - `names`: file names and their order.
  - `serving`: HTTP requests for files and their replies.
  - `paths`, `path_laws`: paths in URLs and in the file system.
  - `encoding`, `encoding_laws`: percent-encoding.
  - `message`, `text`: messages, and the texts in them.
- `app/` carries the decisions out on an actix web server. What it needs of the
  rest of the server is the trait `Host`.
- `tests/` runs the library.
