# shiftpaper

A verified core for the shiftpaper parallax wallpaper tools, written in
Verus.

- `src/` is the library that Verus verifies: path and configuration
  resolution, cache naming and hashing, image decoding into pixels,
  format-preserving edits of the TOML configuration, and the state of the
  wallpaper daemon (outputs, layer surfaces, pointer tracking, idle and
  battery gating, reloads). Calls into `toml_edit`, `directories`,
  `image` and `blake3` stand behind small trusted wrappers whose contracts
  state what those crates document.
- `tests/` runs the library on concrete inputs.
- `app/` is the unverified shell: the `shiftpaper` command line,
  the `shiftpaperd` daemon (Wayland, wgpu, signals) and the first-generation
  `depthpaper` daemon, including depth inference with ONNX Runtime.
