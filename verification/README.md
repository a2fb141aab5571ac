# ferrolife

A GPU cellular-automaton board viewer. The crate is split in two:

- `src/` — the verified library (Verus): board geometry and compute dispatch
  (`grid`), packed cell colours and buffer read-back (`instance`), birth and
  survival rule bit sets (`rules`), the double-buffered simulation state and
  image-to-board sampling (`simulation`), image decoding through the `image`
  crate (`image_decode`), camera key handling (`camera`), pausing, step timing
  and key routing (`state`), surface size fitting (`surface`), `#rrggbb`
  parsing (`color_hex`) and the initial-board hash (`hash`).
- `app/` — the windowing, GPU and UI code around it (winit, wgpu, imgui), and
  every floating-point computation (colours, camera matrices, thresholds).

`tests/` exercises the library on concrete values.
