# drum_sampler

A MIDI drum pad with a step sequencer, and a desktop sampler that plays
audio tracks when the pads' notes arrive.

- `src/` is the verified library: pad hit detection and scanning, the
  ADC and LED expander bytes, the quantizer clock, the sequencer, the
  settings components, the user interface (elements, screens, the screen
  manager and the display driver's byte sequences), the decisions of the
  device's tasks (`main_loop`), the USB command channel (`vendor`), and
  the desktop sampler's note routing (`software`).
- `app/` is the code around it: settings and project files (TOML), the
  desktop sampler's MIDI input, audio decoding and mixing, and the glue
  that carries out what the library decides.
- `tests/` exercises the library on concrete inputs.
