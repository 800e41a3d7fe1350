# spice_gtk_usb_portal

A bridge between spice-gtk's USB redirection and the XDG Desktop USB portal,
split into a verified core and its GObject bindings.

- `src/` is the library, verified with Verus:
  - `error`: the `SpiceUsbPortalError` domain (codes 0 to 4) and a plain
    model of a `GError`;
  - `device_id`: the portal's device identifiers;
  - `devices`: device descriptions (with the hub heuristic, which runs the
    `regex` crate), owned device handles (descriptor ownership, SPICE
    attachment, what disposing them has to do), the decisions taken on the
    portal's replies (acquiring and listing devices) and the device-event
    watcher;
  - `usbredir`: the redirection channel counts and the step machine of
    attaching a device to a SPICE session;
  - `capi_support`: the argument rules of the C entry points.
- `app/` holds the GObject types, the async calls to the portal (`ashpd`) and
  to spice-gtk (`spice-client-glib`), and the C entry points; it feeds their
  answers to the library and carries out what the library decides.
- `tests/` exercise the library on concrete values.
