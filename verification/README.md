# rbc

A Game Boy Color emulator core with its behaviour stated in Verus contracts
and proved, and an egui front end around it.

- `src/` — the verified library: registers and ALU (`registers`, `alu`), the
  SM83 CPU (`cpu_spec` holds the instruction semantics, `cpu` and `cpu/cb` the
  executable CPU), the memory bus (`bus`), cartridge mappers with the MBC3
  real-time clock (`cartridge`, `clock`), timer, joypad, PPU and APU, the
  whole system (`gb`), and the front end's own logic: the game library and its
  file format (`library`, `text`), box art names, URLs and image decoding
  (`boxart`), date display (`date`), the window icon (`icon`), key names
  (`keys`), the configuration file (`settings`) and the file names derived
  from a ROM path (`paths`).
- `tests/` — tests of the library on concrete values.
- `app/` — the program: window, menus, input, files and network.
