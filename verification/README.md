# tata_switch

The verified core of TA-TA Switch, a Windows tray tool that keeps several
login sessions ("profiles") of the game Arknights: Endfield and switches
between them by copying the game's session files.

- `src/` is the library, verified with Verus:
  - `settings_manager`: the settings and their INI text (through `configparser`);
  - `account_manager`: the active profile, the saved profiles, and the
    step-by-step save and restore of a session (`SessionTransfer`);
  - `path_manager`: finding the session directory and the game executable;
  - `i18n_manager`: the localised messages (JSON tables through `serde_json`);
  - `tray_menu`: the menu model and the commands that its entries ask for;
  - `dialogs`: the message boxes and the settings changes behind the commands;
  - `tray_flow`: what follows a menu click, as a state machine whose
    actions (reading and writing settings, showing messages, ...) the
    program performs;
  - `text`, `paths`: text and path helpers.
- `app/` is the Windows program around it: the tray icon and windows
  (`native-windows-gui`, `tray-icon`), the registry (`winreg`), the process
  list (`sysinfo`), and the file system.
- `tests/` runs the library on concrete values.
