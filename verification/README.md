# mpf_mc

The state and decisions of the MPF media controller, with proved contracts.

- `src/` is the library: slides and widgets (`scene`, `slide`, `widget`),
  the handling of client requests (`server`, `error`, `color`), the
  classification of decoded streams (`pipeline`), the frame-statistics
  schedule (`display`), and the laws that hold across these operations
  (`laws`).  Every function there carries a contract, proved for all inputs.
- `app/` is the program around it: the ggez window that renders and draws
  the slide on show, the GStreamer video pipeline, and the gRPC server.
  It performs the work that the library's update tasks and media tasks ask
  for and hands the results back.
- `tests/` runs the library on concrete values.

Floating-point values (positions, sizes, colour channels) travel through the
library as their IEEE-754 bit patterns; the renderer and the texture, canvas,
font and video types are type parameters that the program fills in.
