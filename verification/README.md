# porthunter

A TCP port scanner with a graphical interface and a command-line menu.

- `src/` is the verified library: the knowledge base of well-known ports
  (`ports`), text handling (`text`), port lists such as `80,443,22` or
  `1-1000` typed in the first port field (`port_list`), the scan session state machine
  (`scan`), the state of the graphical interface and what scan messages and
  buttons do to it (`state`), the listing of results (`results`), the menu
  and launcher decisions (`cli`) and the FIGlet title (`banner`).
- `app/` is the program around it: sockets and name resolution, the scan
  thread and its channels, the egui window, the terminal menu and the JSON
  export.
- `tests/` runs the library on concrete inputs.
