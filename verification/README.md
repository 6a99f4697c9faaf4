# TM-2077

A metronome / tuner combo with chromatic, guitar and quarter-tone modes.

- `src/` is the verified core, checked by Verus: note naming and pitch
  snapping (`note`), tap tempo and the Maelzel graduations (`tempo`), the
  metronome's settings and beat clock (`metronome`), the tuner's state
  machine (`tuner`), the audio engine facade (`engine`), the application
  state and its frame cycle (`shell`), the displays (`display`), the rocker
  auto-repeat (`controls`), sample framing (`samples`), the colour themes
  (`theme`), and the persistent vectors of `imbl` (`pvec`).
- `app/` is the program around it: the egui window and painting, the cpal
  and Web Audio streams, pitch detection and settings persistence.
- `tests/` exercises the library on concrete values.

Pitches are measured in millicents (an octave is 1 200 000), frequencies in
millihertz and tap times in microseconds, so the core works on integers.
