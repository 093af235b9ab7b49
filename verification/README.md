# wayscriber

A screen annotation overlay for Wayland compositors: draw freehand, lines,
rectangles, ellipses, arrows, highlights and text over the screen, switch to a
whiteboard or blackboard, take screenshots, and edit the configuration.

## Layout

- `src/` — the library, verified with Verus. Every decision of the overlay
  lives here with its contract: keybinding parsing and the action map, the
  input state machine (keys, mouse, scroll, text entry, board modes, click
  highlights, capture shortcuts), frames and undo, dirty-region tracking,
  shape geometry and bounds, configuration validation and migration planning,
  the capture pipeline's decisions, the daemon's overlay toggling, the
  backend's bookkeeping, and the configuration editor's state and drafts.
  Public `law_*` proof functions state properties that span several calls.
- `tests/` — tests of the library.
- `app/` — the program around it: Wayland surfaces and the event loop, Cairo
  and Pango rendering, D-Bus portal and notifications, the tray icon, files,
  and the settings that are floating-point numbers.
