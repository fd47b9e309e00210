# niri

The part of a Wayland compositor that serves `org.freedesktop.RemoteDesktop1` sessions, splits
outputs into zones and drags workspaces, verified with Verus.

The library decides and never acts. Its functions take plain values and return the list of things to
do, in order; where a decision needs the outcome of one of them, the caller hands it back to the
function that the action names.

- `src/dbus/remote_desktop`: the D-Bus objects, their paths and options, and the registry of what is
  on the bus.
- `src/remote_desktop`: sessions, virtual monitors, streams, the clipboard and emulated input. What
  holds across messages is stated in `laws.rs`.
- `src/zone.rs`: zones of a physical output.
- `src/input`: the grab that drags a workspace.
- `src/utils`: geometry, numbers, texts and lists.
- `tests`: the library at work under small stand-ins for a compositor and a seat.
- `app`: the bus, the event loop, the outputs and the seat around the library. Everything with
  floating point numbers is there.

One fact is taken from outside and not proved: which texts zvariant accepts as object paths
(`src/dbus/remote_desktop/paths.rs`).
