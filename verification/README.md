# gt6

The deterministic core of a top-down open-world city game for the browser,
verified with Verus.

- `src/` — the verified library: the xorshift64* random stream, key and
  mouse bindings with their `config.ini` format (writing and lenient
  reading, with a proved round trip), keyboard/mouse state with per-frame
  edge detection and the controls it maps to, the player's mode machine
  (car, airplane, dragon, on foot, elephant) driven by the bound special
  keys, and its SPECIALS panel, the mission loop, city-grid and
  traffic-heading arithmetic, CSS color text, dragon-mesh selection and
  baking, merging a mesh's index lists, and texture averaging/decoding
  (through the `image` crate).
- `app/` — the browser shell around it (canvas, DOM events, fetch,
  localStorage, WebAudio, glTF loading, a top-down view of the player, the
  vehicles and the herd, money and wanted level) and the floating-point
  simulation: car physics, city geometry and collision, pedestrians,
  traffic, police heat and busts, particles, wildlife, missions and the 3D
  camera.
- `tests/` — tests of the library.
