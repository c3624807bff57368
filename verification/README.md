# system76_power

The decision logic of a laptop power-management service and its client,
verified with Verus.

- `src/decimal.rs`: decimal `i32` text, read as `i32::from_str_radix(_, 10)`
  reads it and written as `{}` writes it; reading back what was written gives
  the value.
- `src/charge_thresholds.rs`: the battery charge thresholds from the text of
  their sysfs files, and the text to write to them.
- `src/profile.rs`: power profiles and the service's record of the profile in
  force (switching, the error text of a switch).
- `src/hotplug.rs`: which display ports to announce between two samples.
- `src/service.rs`: the service's process-wide switches.
- `src/dbus_api.rs`: the methods of the D-Bus interface, by name.
- `src/command.rs`, `src/report.rs`: the client's command line and the lines
  it prints.
- `app/`: the D-Bus client and the sysfs reads and writes around the library.
