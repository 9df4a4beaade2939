# OmniTouch

OmniTouch puts configurable buttons on a transparent overlay over the whole screen of
a Windows touch device and turns touches on them into keyboard keys, mouse movement and
the buttons, triggers and sticks of a virtual Xbox 360 pad.

- `src/` is the `omnitouch` library, verified with Verus: the button model, the layout
  of the on-screen keyboard, the preset combos, what every touch, click, drag and slide
  does, the editor's panels and sidebar, configuration names and lists, scrolling, and
  the decisions of the windows. Each function states its result in its contract; the
  public proof functions state the laws that hold across calls (tags read back as their
  items, new names are free, keyboard keys fit the panel and never overlap, a toggle
  pressed twice is back where it was, the sidebar lists each button once, a lifted
  finger is forgotten, and so on).
- `app/` is the Windows program around it: windows and controls, Direct2D drawing,
  configuration files (JSON through serde), the registry, injected input and the
  ViGEm pad. It performs the actions that the library's decisions return.
- `tests/` runs the library on concrete cases.
