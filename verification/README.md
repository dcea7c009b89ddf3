# macuse

Natural scrolling chosen separately for the trackpad and for the mouse on macOS.

- `src/` is the verified library: the settings and where they live, the
  launch agent's path and text, the reading of the system-wide scroll
  direction, the inversion of scroll deltas per device, the event tap's
  reactions and the settings window's decisions.
- `app/` is the program around it: Core Graphics event tap, Core Foundation
  preference read, Cocoa window, files, `launchctl` and logging.
