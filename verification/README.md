# gnirehtet-vd

The host daemon of a wired tunnel between a headset and a PC. It keeps the reverse mappings of the
device alive, gates the relay, recovers the transport after a resume or a reconnect, restarts
Virtual Desktop when its connection is lost, and answers an authenticated admin endpoint.

* `src/` is the library: every rule of the daemon, written in Verus and proved. Procedures that
  wait for the outside world are functions from a step to the next action.
  * `state`, `status`: the lifecycle and the status document.
  * `relay`: when flows may pass.
  * `recovery`, `monitor`: the recovery of the transport and the state of the carrier monitor.
  * `reconcile`, `transport`, `supervisor`, `watchdog`: what the monitor does, step by step.
  * `track`: the output of the device tracker.
  * `admin`, `daemon`, `doctor`, `paths`, `vd_service`, `runtime`: the endpoint, the identity of
    the daemon, the health report, files and pipes, the host's service, and a run as a whole.
  * `text`, `time`: texts and spans of time.
* `tests/` runs the library.
* `app/` is ordinary Rust around it: files, sockets, processes, timers and JSON.
