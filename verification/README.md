# minecraft_terminal_viewer

Shows a Minecraft instance in a terminal, drawn with half-block characters: on
the local terminal, or to any number of SSH clients.

`src/` is the library. Every decision of the viewer is made there, by functions
whose contracts Verus proves:

- `size`: terminal sizes and the 16:9 picture that belongs to them
- `event`, `capture`: what is done with the input of the local terminal
- `interactive`, `mode`: the order of a local session, and when there is one
- `handle`, `terminal`: the byte stream to a remote terminal
- `clients`, `server`: the connected clients and their SSH requests
- `frames`, `rendering`: showing the newest frame, and when the rendering ends
- `laws`: what holds across requests and connections

`tests/` runs the library with the real outside crates. `app/` is the program
around it: it performs the actions that the library decides on, and holds the
threads, the tasks and the I/O.
