# archipelago

The decision logic of the Archipelago viewer for a robot simulation, verified
with Verus, and the egui program around it.

- `src/` — the verified library:
  - `close_dialog`: the quit-confirmation dialog (`CloseState`, `CloseWindowState`);
  - `display::touch`: touch input on the emulated brain display and the events sent on;
  - `display::frame`: turning a frame buffer into opaque RGBA bytes;
  - `icon`: decoding the window icon;
  - `ipc`: connecting to the simulator at most once (`Connection`);
  - `prefs`: unit preferences and their labels;
  - `windows`: the about box, motor and distance-sensor windows, port numbering.
- `tests/` — tests of the library on concrete values.
- `app/` — the egui program: windows, channels, the IPC thread, and the
  floating-point unit conversions.
