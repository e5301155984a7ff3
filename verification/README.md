# styli-rs

A wallpaper switcher for Unix desktops: it fetches a wallpaper (picsum.photos,
Unsplash, DeviantArt, NASA's picture of the day, Reddit, a local folder), sets it with the desktop's
own tool (feh, nitrogen, GNOME, KDE, XFCE, Sway, Hyprland, awww/aww/swww, or a
custom shell command), and writes a sixteen-colour terminal scheme taken from
the image.

## Layout

- `src/` is the library, written in Verus. Every function in it carries a
  contract that Verus proves, except five small functions marked
  `#[verifier::external_body]` whose contracts are trusted: `String::push`,
  `str::to_lowercase`, and the three readers that hand JSON answers to
  `serde_json` (NASA, Reddit, Unsplash). Their doc comments say what is
  assumed of them. The modules:
  - `text` — the string operations the rest relies on (splitting into words
    and lines, trimming, searching, replacing, decimal and hexadecimal
    rendering, number parsing), each proved against a description of what
    the standard library does;
  - `wallpaper` — backend and fill-mode choices, the command lines each backend
    runs, the decision taken when one of them fails, and backend detection;
  - `resolution` — reading the screen resolution out of `xrandr`, `wlr-randr`,
    `swaymsg` and DRM output, and the order in which those are tried;
  - `sources`, `download` — addresses, answers and file names of the wallpaper
    sources;
  - `wal` — colour schemes, the `#rrggbb` notation, and the escape sequences
    and cache files written from a scheme;
  - `config`, `cli` — settings defaults and the command's decisions.
- `app/` is the program around the library: argument parsing, network and file
  access, running the commands the library describes, and the floating-point
  colour extraction.
- `tests/` exercises the library on concrete values.
