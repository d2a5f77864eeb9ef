# aegis

The logic of the Athena OS installer, verified with Verus: disk layouts and
partition plans, the installation steps that a configuration asks for (for
the Arch and the NixOS backends), the package picker, the log box, the
step runner and the animated ticker of the installation screen, and the
pages and widgets of the terminal interface as step functions from a state
and a key to the next state.

## Layout

- `src/` is the verified library. Each public function states its result in
  `ensures`; `src/laws.rs`, `src/layout_laws.rs` and the public proof
  functions beside the types hold the properties that relate several calls
  (a repeated search, tidying a layout twice, resetting a disk, toggling
  twice, and so on). The calls into outside crates (`fuzzy-matcher`'s
  scores, `base64` and `flate2` for the stored logos, `strip-ansi-escapes`
  and `ansi-to-tui` for the log, `rand` for the ticker's next phrase, std's
  lowercase mapping) stand behind trusted wrappers whose doc comments say
  what is assumed of them.
- `tests/` runs the library on concrete values.
- `app/` is the command line around it: it lists the disks that `lsblk`
  reports, prints the installation plan of a configuration file (Arch or
  NixOS, passwords redacted), reports the drivers that `lscpu` and `lspci`
  call for, uploads the log, and runs the installation's command lines on
  given system and drive configuration files (the backend does the work).
  It has no terminal interface.
