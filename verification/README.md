# vauchi_gtk

The native Linux desktop shell of Vauchi (GTK4 + libadwaita), split in two:

- `src/` — the verified library: every decision the shell makes about
  Core's presentation commands, proved with Verus. It holds the presentation
  state (which surfaces, context bars, overlays and profile are held and
  shown), the planning of a command batch, the exchange dispatcher's plan
  (what each hardware or platform command does, with each missing capability
  reported once per batch), the overlay lifecycle, keyboard and start-up
  decisions, the theme stylesheet, locale and font-directory resolution (the
  override directory first, then the walk up from the executable), QR
  module grids, sidebar and component decisions, and the screen-catalog
  capture plan.
- `app/` — the program around it: GTK widgets, the event loop, file and
  network I/O, and the calls into Core. It converts Core's values into the
  library's types and carries out what the library decides.
- `tests/` — tests of the library on concrete values.

Verify with Verus; the tests run with the outside crates (`qrcode`) linked.
