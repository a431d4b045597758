# codec

The encoding side of a video pipeline: which encoder a job gets, how a session
is set up, how pictures are laid out in memory, and how packets come back.

- `src/` is the library, verified with Verus. A hardware encoder is a state
  machine: its methods say what to ask of the driver and take the driver's
  answer.
- `app/` is the host. It loads drivers and runtimes, makes the calls that the
  library asks for, and reports the answers. Its features `nvidia`, `amd`, `qsv`
  and `ffmpeg` bring in the back ends that need a vendor's library.
- `tests/` runs the library on concrete values.
