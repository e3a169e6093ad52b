# cosmic-hdr

The logic of an HDR settings panel for the COSMIC desktop, verified with Verus,
and the application around it.

- `src/` is the library. Every function in it is verified.
  - `text`, `number`: text and numbers, over sequences of characters.
  - `luminance`, `cta`, `edid`: what a display's EDID says of it.
  - `connector`, `gpu`: which connector and which graphics hardware are in use.
  - `conf`: the two settings files.
  - `calib`: test patterns and calibration.
  - `apply`: the commands that apply, reset and save settings, and what their
    ends mean.
  - `panel`: the panel's state, its messages and its actions.
  - `controls`, `page`: what the panel shows.
- `app/` is the program: it reads the system, runs commands and draws the page.
- `tests/` runs the library on concrete values.

One function is trusted: `edid::from_utf8_lossy`, which calls
`String::from_utf8_lossy`. The percentages on the PQ scale and of the digital
vibrance are floating point and are worked out in `app/readouts.rs`.

The window needs `libcosmic`, which is published as a git repository only.
