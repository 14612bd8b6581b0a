# GhostSun

Desktop software for a spectroheliograph: it focuses the instrument, drives the
mount and the camera through a scan of the solar disc, and turns recordings into
pictures.

The decisions are made by a verified library; the window, the devices and the
floating-point measurements stand around it.

## Layout

- `src/` is the library, written in Verus. Each module states what it decides in
  its contracts and holds the laws that relate several of its functions.
  - `gong`, `session`, `process`, `reconstruct`, `viewer`: references, sessions,
    review and the viewer's jobs
  - `camera_worker`, `camera_panel`, `anchor`: what the sensor reads, when and why
  - `focus`, `focusmetrics`, `saved_focus`: line selection, bursts and curves
  - `autofocus`, `focuser`: the bounded sweep of the telescope focuser
  - `mount`, `lx200`, `mount_worker`, `mount_panel`, `auto_center`: the mount and
    the search for the Sun
  - `acquire`, `scan`: calibration and guided scans
  - `site`, `places`, `ports`, `software`, `storage`, `applog`: settings and files
  - `text`, `order`, `double`: text, sorting, and double precision in integers
- `tests/` runs the library on concrete values.
- `app/` is the program: egui window, serial line, USB, network, disk, and the
  measurements that need floating point.

## Conventions

Times are milliseconds, scan angles millionths of a degree. A measured value
enters the library as an integer with the same order; its text is passed along
where a message shows it.
