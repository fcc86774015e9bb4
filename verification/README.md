# app_lib

The verified core of the Axolotl launcher library, written in Verus.

- `src/` is the library. Every function in it carries a contract that Verus
  proves: the product identity strings (`brand`), archive path checks and the
  replacement journal that lets an extraction be rolled back or committed
  (`archive`, `archive_journal`), the install job model and its state
  transitions (`install_model`, `install_jobs`, `install_requests`,
  `install_errors`), the preparation and the run of a job as step functions
  from an event to the next action (`install_prepare`, `install_run`,
  `install_adjuncts`), the loader selection rules (`loader`) and the route
  probe scope (`route_health`). The few calls into `std` and outside crates
  go through small trusted wrappers whose doc comments say what is assumed.
- `tests/` runs the library on concrete values.
- `app/` is the unverified shell around it: file system and archive I/O,
  the build-time data directory suffix, floating point, and JSON.

The step functions decide what a job does next; no driver that performs
their actions (the job store, the instance database, the CurseForge and
Modrinth clients, the launcher) is part of this crate, and `app/` does not
hold one either.
