# convo

The logic of a desktop chat client for a local language-model server, proved
with Verus.

- `src/` is the verified library: chats and their messages (`chat`), the
  conversation screen (`conversation`) and what it shows (`page`), the model
  download screen (`loading`),
  the screen switcher (`screen`), the prompt, the server's command line and
  readiness decisions (`assistant`), the row encoding of stored chats (`db`), the hub download
  progress (`huggingface`), text helpers (`text`) and chat identifiers (`ids`).
  Each screen is a transition from state and event to the next state and the
  work to perform; its contract is the spec function `step` (`loading_step`,
  `app_step`) and the laws beside it.
- `app/` is the window around it: the iced views and styles, the SQLite
  database, the model server process and its HTTP stream, the download, and the
  loop that performs the work the library asks for and hands back what came of it.
- `tests/` runs the library on concrete values.
