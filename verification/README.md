# open_steam_controller

Support for the Steam Controller in games without Steam: the controller's HID reports are
decoded into backend independent inputs, which are sent to a virtual Xbox controller (and a
virtual mouse and keyboard in the alternative mode).

- `src/` is the verified library: report decoding (`steam_controller`), the state a
  device keeps and how it is shown (`properties`, `refresh`), device discovery decisions
  (`discovery`), the mapping onto the virtual devices (`virtual_output`), text building
  (`text`) and properties spanning several functions (`laws`).
- `app/` is the code around it that talks to the operating system: HID access (hidapi), the
  virtual devices (uinput on Linux, ViGEm on Windows) and the float conversions they need.
- `tests/` runs the library on concrete reports.
