# rmc server

The server behind `rmc`: it serves web pages, puts the files that a page's include comments
(`<!--#include "/nav.html"-->`) name in their place, and answers commands from other processes
about its status.

- `src/` is the verified library. It decides: which file answers a request, where include
  comments stand, what a page becomes, what each error says, and what a starting server does
  next. It reads no file and opens no socket.
- `app/` does what the library decides: files, sockets, signals, the environment.
- `tests/` runs the library on concrete values.

A request is answered in steps. `requests::handle_request` gives the first step; each step is a
response or a file to read, and `Pending::resume` takes what came of reading it. Starting the
server (`lifecycle::run`) and sending it commands (`Server::exec_ipc_message`, `ipc_handler`)
work in the same way. The laws about whole requests stand in `expansion`, those about whole
runs of the server in `lifecycle`.
