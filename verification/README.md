# rakuyomi_bridge

The bridge between the rakuyomi server and its Android companion app, with its
decisions verified by Verus.

* `src/` is the verified library.
  * `lifecycle`: the one server of the process, when it starts, how it stops,
    whether it runs. `status` holds the codes that the entry points return.
  * `server_task`: the steps of the task that runs the server.
  * `requests`: the numbers of network requests, what is sent of them to the app,
    and who waits for which answer.
  * `headers`: response headers, from JSON to the HTTP client's header map.
  * `response`: what a request comes back with.
  * `logs`: the bounded queue of log lines that the app polls.
  * `diag`: the lines of the diagnostic file. `decimal` writes numbers.
  * `polyfills`: a decision that old Android needs.
* `tests/` runs the library on concrete values, with the real HTTP client and
  JSON reader.
* `app/` is the platform side: JNI entry points, the async runtime, files, HTTP
  routes and the command line.

The server that the bridge starts is named by an implementation of
`host::Host` in `app/`.
