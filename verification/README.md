# faxanadu_patcher

A ROM patcher for the NES game Faxanadu (EN), as a library whose behaviour is stated
in contracts and proved, and a small command-line program around it.

- `src/rom.rs`: the ROM image, bank and CPU-address mapping, reads, writes and pattern
  searches.
- `src/allocator.rs`: finds the trailing free space ($FF bytes) of some banks and hands
  out non-overlapping blocks of it to patches that need new code.
- `src/subroutine.rs`: a byte-level 6502 routine builder.
- `src/ips.rs`: the differences between two images and their IPS encoding.
- `src/patches/`: the patches themselves, each stated as the writes it makes.
- `app/`: argument handling, file input and output, and the messages printed.

Two patches follow their documented intent byte for byte:

- Faster text sets the text-timer AND mask at `$F49F` to `#$01`, so text renders twice
  as fast.
- The Crystal warp routine at `$FE68` keeps its save-and-warp entry at `$FED1` (a `NOP`
  pads the last area check), and each area check's "goto next" branch lands on the next
  area's `CPY`.

Title lines may be any text: they are upper-cased as `str::to_uppercase` does, then cut
to their slot's width in bytes or padded with spaces to it in characters. A cut that
would split a character is refused (`patch_title_lines_checked` returns `None`).
