# capsglow

The decision logic of CapsGlow, a Windows tray application that shows a caps-lock
indicator window, written in Verus and verified.

- `src/` is the verified library:
  - `tray::menu::item`: the layout of the tray menu (`create_menu`): its entries in display
    order, which check items start checked, and the registrations with the menu registry.
  - `tray::menu::handler`: what a click on a menu control does (`MenuHandler::run`).
  - `tray::menu::ids`: the menu ids and their parsing.
  - `tray::menu::laws`: properties of the menu as a whole (ids are distinct, every shown item
    is registered and handled, radio groups show the current setting, a radio click selects
    its item).
  - `events`: the caps-lock poll, the auto-hide timer and the redraw decision.
  - `config`, `window`: the settings that the menu shows and changes.
- `app/` is the Windows program around the library: the winit event loop, the tray-icon
  menu objects, the registry, the configuration file and the system calls. It builds only
  on Windows.
- `tests/` runs the library on concrete values.
