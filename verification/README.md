# gstsmith-app

A small runtime and starter for building GStreamer applications in Rust.
Applications keep their pipeline topology in Rust; `gstsmith-app` owns the
repetitive lifecycle around it:

- start a pipeline and consume its message bus asynchronously
- stop on EOS, a pipeline error, or an application-provided shutdown future
- optionally drain EOS so muxers and file outputs can finalize
- always take the pipeline to `Null` before returning

Every decision of that lifecycle, and of the composition helpers, is a function of
the library under `src/`, with a contract that Verus proves. The library performs
nothing: it says which action is due, and is told what happened. `app/` is the host
that calls GStreamer, awaits the bus and the shutdown future, and reports.

## Layout

- `src/drive.rs`: a running pipeline, from `Playing` until it is decided how the run
  ends; shared by both runners
- `src/runtime.rs`: the runner whose native calls run on worker threads and whose
  cleanup survives cancellation; teardown has no deadline
- `src/bounded.rs`: the runner that waits for `Null` for five seconds, or for as long
  as `state_change_timeout` says
- `src/outcome.rs`, `src/error.rs`: results and the text of errors
- `src/clock.rs`: durations in nanoseconds
- `src/compose.rs`: names, ghost pads, dynamic links
- `src/*_laws.rs`: what holds of every run and of every composition; `src/trace.rs`
  counts actions for them
- `tests/`: scenarios, hosted by pipelines that only pretend
- `app/`: the GStreamer host, with two example applications

## Laws

Among what is proved of every run, whatever happens to it:

- a run that returns has asked the pipeline to go to `Null`, once, at its end; a
  `bounded` run that returns success has seen the pipeline there
- EOS is sent at most once, only after shutdown was requested, and only in the mode
  that drains
- the result follows from the event that ended the run and from what became of the
  stop; no failure is lost

And of every `runtime` run, which may be dropped at any time:

- once it was polled, the pipeline is asked to go to `Null` exactly once, by the run
  itself or by whoever drops it, and never before its start was answered
- a run that is dropped without having been polled leaves the pipeline alone

Dropping a `bounded` run asks for nothing.

## Trusted

Two functions of `std::time::Duration`, `as_nanos` and `from_secs`, are specified
without proof in `src/clock.rs`, over the name `duration_nanos` for the nanoseconds of
a duration.
