# ekaos-install

A guided terminal installer for NixOS.

- `src/` is the library, verified with Verus: the wizard's screens and the
  rules that move between them, the forms and their validation, the
  keyboard behaviour of every component, disk and partition planning, the
  parsing of what the system reports (`/proc/cpuinfo`, `/proc/meminfo`,
  `/etc/os-release`), and the installation run as a state machine that
  says what to do next and what to report.
- `app/` is the terminal program around it: argument parsing, the terminal,
  drawing, and everything that touches the running system (files, commands,
  the background installation thread).
- `tests/` exercises the library.

Run `ekaos-install --mock` to walk through the wizard without touching the
system; setting `EKAOS_MOCK` also simulates the system checks.
