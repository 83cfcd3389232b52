# ability_clipboard

Verified core of an OpenHarmony ability crate and its clipboard bridge plugin.

- `src/event.rs`: lifecycle events and their names; the prepare-to-terminate answer slot.
- `src/display.rs`: the display-position layout pushed from ArkTS, and how displays
  reported by the display manager are described (names, sizes, positions, fallback).
- `src/clipboard.rs`: request/response shapes, action names, image-size validation,
  acceptance of write-like actions, error reasons.
- `src/image.rs`: decoding of the base64 PNG read-image payload to RGBA8.
- `src/decimal.rs`: decimal rendering used by the error reasons.
- `app/`: NAPI entry points and objects, the display manager's C API, the async
  clipboard client.
