# menu_driver

Verified logic of a UEFI driver for the Raspberry Pi 5 that records the USB
devices reported by a USB extension protocol and, when F4 is pressed, draws a
blue box listing them on the graphics framebuffer (a second F4 clears it). It
logs over the board's PL011 UART.

- `src/` is the library, checked by Verus:
  - `utf16`: NUL-terminated UTF-16 strings from firmware to `String`;
  - `font`: the 8x8 bitmap font;
  - `framebuffer`: rectangles, characters and text painted into a pixel slice;
  - `text_format`: decimal and fixed-width hexadecimal digits;
  - `usb`: device reports, the driver's USB state and the box text;
  - `screen`: drawing and clearing the box;
  - `keys`: status codes and the F4 toggle;
  - `startup`: the menu driver's start-up sequence;
  - `uart`: UART register values, the set-up sequence and log framing.
- `app/` holds the UEFI entry points and callbacks, which do the firmware
  calls and the memory-mapped I/O. The drawing, the USB bookkeeping, the key
  and status decisions, the menu driver's start-up sequence and the UART
  sequencing are the library's; the callbacks skip a null context pointer.
- `tests/` runs the library on concrete values.
