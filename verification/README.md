# nvda_rust_uia_standalone

A portable screen-reader core whose logic is specified and proved with Verus,
and the platform runtimes around it.

- `src/` — the verified library: normalized roles and states (`semantic`),
  focus presentation (`presentation`), object navigation and its security
  guard (`navigation`, `navigation_security`), commands and gestures
  (`commands`), backends (`platform`), the UI Automation, AX and AT-SPI2 role
  and state mappings (`uia`, `uia_semantic`, `macos_semantic`,
  `linux_semantic`), the decisions of the Windows runtime, speech dispatcher,
  TextPattern2 evidence and AT-SPI2 probe (`windows_runtime`,
  `windows_speech`, `windows_textpattern2`, `linux_probe`), the diagnostic
  text policy (`windows_diagnostics`), event lines (`lib.rs`) and the string
  helpers they share (`text`).
- `app/` — the executable: COM/UI Automation, speech synthesis, AT-SPI2 and
  AX calls, threads and output. It hands plain values to the library and acts
  on what the library decides.
- `tests/` — tests of the library on concrete values.
