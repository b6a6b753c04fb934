# video_pipeline

A video pipeline (demux, decode, convert, write each frame as a PPM image), verified with Verus.

- `src/` is the verified library: the producer that fans values out to consumers, the
  frame-file layout (PPM header and file name), decimal formatting, the choice of the video
  stream, the decoder's packet filter, the checks on FFmpeg's return codes with their
  messages, the scaler's output, and the window's reaction to events.
- `app/` is the program around it: the FFmpeg, GLFW and OpenGL calls, the file writes, and
  `main`.
- `tests/` runs the library on concrete values.
