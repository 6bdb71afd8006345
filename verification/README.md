# ue2emu

An emulator core for the Ultimate family of C64 cartridges, written in Rust with
contracts that Verus proves.

- `src/` is the library. Everything in it is verified.
  - The C64's side: the cartridge logic (`cart`, `cart_state`), the slot in front of
    it (`proxy`), the command interface (`uci`), the C64 port and its registers
    (`c64`, `c64_state`, `c64_tables`), keys as joystick (`keyjoy`), the stand-in
    without a C64 (`dmastub`), and what the host of a C64 decides (`bridge`).
  - The board's side: register tables (`regtable`), devices and their windows
    (`board`, `iec`, `iomap`, `devices`), interrupts (`irq`), the run loop's
    bookkeeping (`machine`, `hooks`, `trace`, `logs`, `schedule`, `routing`).
  - The host's side: the control language (`command`, `parse`), what its commands do
    (`execute`, `script`), timed input (`timed`, `timeline`), the console (`console`),
    pictures (`picture`), pacing (`pacing`), and installing an update (`updater`,
    `install`).
  - What holds of several functions together stands in the modules whose names end in
    `_laws`, or at the end of the module it is about.
- `tests/` runs the library from outside.
- `app/` is ordinary Rust around the library: the command line, threads, files and
  sockets. The RISC-V core and the chips of the C64 are not part of this crate;
  `app/system.rs` says what is asked of them.
