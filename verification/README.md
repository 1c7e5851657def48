# Multi-threaded, hot-patched rendering in the browser

A scene is rendered by a pool of web workers that share one WebAssembly memory,
while a development server sends patches for the running program.

- `src/` is the library, verified with Verus: the worker pool, the messages
  between threads, the layout of the image, and the response to the development
  server. It decides; it does not touch the browser.
- `app/` is the program around it. It spawns workers, posts messages, applies
  patches and exports everything to JavaScript, as the library says.
- `tests/` runs the library on concrete values.
