# mactemp

A lightweight macOS menu bar system monitor: CPU/GPU die temperature, CPU
usage and RAM usage in the menu bar, with a dropdown menu and an
"Auto Launch at Login" toggle.

- `src/` is the verified library (Verus):
  - `autostart`: where the LaunchAgent plist lives, its contents, when
    auto-launch counts as enabled, and what a toggle does, with laws on
    toggling over a model of the files on disk;
  - `menu`: the exact text of the menu bar title and of the dropdown menu;
  - `smc`: temperature readings and the choice between die and proximity
    sensor;
  - `system_stats`, `figure`: CPU/RAM statistics and readings as display text.
- `app/` is the program around it: the status bar item and event loop, the
  SMC and sysinfo readers, the file system and the environment.
- `tests/` runs the library on concrete values.
