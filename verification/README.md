# machine_pc

The firmware-facing half of a PC emulator, written in Verus: every function
in `src/` carries a contract that the verifier proves.

- `mem` — physical memory: RAM, ROM windows, the A20 gate, the 440FX PAM
  shadow map, SMRAM steering and the DRAM hole, with read/write laws.
- `firmware`, `rom_load`, `hello_rom` — BIOS and option ROM validation and
  mapping, the built-in HELLO ROM.
- `mbr`, `el_torito`, `fat12`, `boot_media`, `boot_load` — boot media
  parsing and the handoff of boot code to `0x7C00`.
- `int10`, `int13*`, `int15*`, `int16`, `ivt`, `bda_kbd`, `bda_timer`,
  `cmos_equipment` — the host-side BIOS services over the BIOS data area.
- `linux_boot`, `linux_media`, `guest_load`, `guest_images`, `guest_boot`,
  `post_report` — Linux boot-protocol triage and the guest boot measures.
- `cli`, `vga_frame`, `text` — argument parsing and the report texts.

`app/main.rs` is the command-line front end; it reads files and prints.
`tests/` holds the executable tests.
