# badgelib

Customizable SVG badges, with the badge logic verified by Verus.

- `src/param.rs`: colors (palette, RGB, hex and CSS forms, parsing, readable
  text color), download periods and badge styles.
- `src/text.rs`: trimming, substring search, decimal digits, compact counts
  (`1.2k`) and byte sizes (`1.2 MiB`), star lines.
- `src/badge.rs`: the badge, its builders and presets, and the rendering
  decisions (`Badge::svg_plan`).
- `src/clock.rs`: points in time and whole days between them, through chrono.
- `src/laws.rs`: properties that hold for all inputs.
- `app/lib.rs`: JSON through serde, SVG layout and markup through maud,
  floating-point ratings, chrono conversion and the axum response.
