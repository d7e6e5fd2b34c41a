# mouros

A small x86_64 desktop operating system whose logic is a library verified
with Verus.

- `src/` — the verified library: colors and the software framebuffer with
  its drawing primitives, fonts, icons and themes; the window stack and the
  desktop's pointer, keyboard and timer handling; the applications (command
  prompt, calculator, notepad, snake, music and MP3 players, picture viewer,
  settings, program runner, system monitor, the game window with its
  engine); the ELF
  loader and the ID3/MP3 stream readers; and the drivers' decisions (PS/2
  mouse packets, PCI decoding, the AC97 descriptor ring, the RTC's BCD, the
  PC speaker, the memory map and frame allocator). Each function carries its
  contract; laws that span several calls are public proof functions. What
  each screen shows (splash, windows, applications, taskbar, start menu) is
  stated as a scene, a list of shapes, and drawing is proved to paint
  exactly that scene's pixels.
- `tests/` — tests of the library on concrete values.
- `app/` — the kernel around the library: boot, paging and heap, port I/O,
  interrupt handlers, the event loops, the game bench's timing, MP3
  decoding and sound output, and running loaded programs.
