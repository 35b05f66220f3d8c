# ygo_scaling_fix

A software DirectDraw v1 wrapper for a legacy 800x600 game engine. The game
keeps drawing into a logical framebuffer while the window becomes a
borderless, native-resolution window and the frame is scaled into it.

## Layout

- `src/` — the verified library (Verus):
  - `abi.rs`: DirectDraw/Win32 data types, constants, identifier comparison.
  - `blit.rs`: pixel encoding, colour fill, scaled copy with source colour
    keys, buffer exchange for `Flip`.
  - `dib.rs`: pixel formats, padded DIB layout and `BITMAPINFO` bytes.
  - `surface.rs`: surface object state and the `Blt`/`BltFast`/`Flip`/
    `Lock`/`GetDC` decisions, the surface registry and presenter key.
  - `palette.rs`, `clipper.rs`: palette and clipper object state.
  - `state.rs`: logical display mode, cooperative level, saved window state.
  - `window.rs`: viewport, mouse remapping, message routing, placements.
  - `ddraw.rs`: the DirectDraw object, surface plans and mode descriptors.
  - `hook.rs`: creation routing and the detour installation steps.
- `app/` — the Windows DLL: COM vtables, GDI presentation, window
  subclassing and the retour detours, calling the library for every
  decision and pixel operation.
- `tests/` — unit tests of the library.
