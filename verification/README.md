# aros_pal

The platform layer that a standard library needs on AROS, as verified decisions.

`src/` is a Verus library. Nothing in it talks to the system: an operation names the call it
wants made, is handed the answer, and then names another call or has its result (`op.rs`). Every
function states and proves which call it asks for and what it makes of each answer that it
accepts. Which those are it states too (`accepts`): left out are answers that its call does not
give, such as a read of more bytes than were asked for, or the answer to another call.

| modules | what they decide |
| --- | --- |
| `error`, `text` | error numbers, C strings, text from raw bytes |
| `path`, `paths` | what is absolute, the current directory |
| `fs` | paths as AROS reads them, open flags, files, directories, links, times |
| `pipe`, `stdio`, `io` | streams |
| `process` | quoting, environments, scripts, starting, waiting, collecting output |
| `net` | addresses, sockets, looking hosts up |
| `time`, `thread`, `thread_local`, `sync`, `memory`, `random`, `env`, `args` | the rest |

Properties that span several calls are public proof functions next to what they speak of: for
example that a quoted command line is read back word for word (`process::quote`), that a script is
written whole (`process::script`), that a signal which was taken for a wait is given back
(`process::child`), that two pipes are emptied without mixing or starving either
(`process::output`), that no socket is left over (`net::open`), and that `realloc` is never handed
a block that `malloc` did not give (`memory`).

`tests/` runs the operations against answers written by hand. `app/` is ordinary Rust: it declares
the entry points, performs the calls, closes what is dropped, and implements the traits of the
standard library.
