# smartcaja_desktop

The start-up logic of the SmartCaja desktop application, verified with Verus.

`src/` holds every decision the desktop shell makes while it starts:

- `status`: the splash-screen status and the changes the start-up makes to it;
- `port`: the search for the backend's port (7860–7863, else one the system assigns);
- `probe`: the backend's addresses and its readiness probe;
- `poll`: waiting for a service with a bounded number of probes;
- `model`: the chat model chosen by installed memory;
- `pull`: a model download through Ollama, line by line;
- `bootstrap`: the preparation of the Ollama engine as a state machine;
- `paths`: where data and logs live on each platform;
- `text`: decimal rendering, prefix and blank-line tests.

Each machine takes the answer to its last action and gives the next action;
`app/` is the Tauri program that carries the actions out (processes, sockets,
HTTP, files, the window) and feeds the answers back.
