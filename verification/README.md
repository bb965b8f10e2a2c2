# ffpipeline

A library that plans ffmpeg transcoding pipelines: from probed inputs, the
capabilities of the local ffmpeg and of the hardware, and the output settings,
it chooses decoders and encoders, builds the chain of filters (moving frames
between system memory and GPU surfaces where a filter needs it), and renders the
ffmpeg command line.

The library under `src/` is written in Verus; every function carries a
contract, and the laws it keeps are stated as proof functions (`law_*`).

- `pipeline`, `pipeline_args`: the pipeline built from inputs and settings, its
  optimization, and its arguments.
- `filter_chain`: evaluating, resolving (surface transfers, pixel format
  conversions, hardware filters) and building the filter graph.
- `video_filter`, `audio_filter`, `overlay_filter`, `accel/*`: the filters and
  their hardware variants.
- `hw_accel`, `capabilities/*`: hardware acceleration methods and what the
  hardware supports, from the answers of the vendor libraries.
- `ffmpeg_info`, `probe`, `input`, `frame_rate`, `frame_size`, `fade_timing`,
  `text`: parsing and the smaller pieces.

`app/` holds the command line tool that probes and prints capabilities, and the
code that talks to processes and native libraries. `tests/` exercises the
library.
