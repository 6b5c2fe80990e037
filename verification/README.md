# video_capture

Frame capture from video streams (files, RTSP cameras) on top of FFmpeg,
exposed to Python as `RsVideoCapture`.

- `src/` is the verified library (Verus): the decisions that drive FFmpeg and
  the capture threads, each with its contract.
  - `cstr`: which paths can be handed to FFmpeg as C strings.
  - `capture`: opening requests, choosing the video stream, `receive`'s
    filtering of packets.
  - `decoder`: software or hardware decoding, the devices each platform has.
  - `connect`: the stages of connecting (input, stream, decoder), and the
    crate-level `connect`.
  - `buffer`: the packet buffer that every keyframe cuts back.
  - `capture_loop`: the capture thread (wait for a keyframe, forward until
    closed).
  - `writer`: saving to fragmented MP4 and the writer thread.
  - `binding`: the Python exceptions raised, the connection state that only
    ever closes, the grab guard, the newest frame.
- `app/` is the Python extension module: PyO3 classes, threads, and every
  call into FFmpeg (rsmpeg), each step steered by the library.
- `tests/` runs the library on concrete values.
