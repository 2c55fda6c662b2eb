# gps_gui_rs

A map application for a GPS beacon: it shows where you are and where the beacon
is, keeps both tracks, talks to the beacon over Bluetooth LE, edits the board's
radio configuration and caches map tiles for offline use.

## Layout

`src/` is the library: everything the application decides and computes, written
in Verus, each function with a contract that Verus proves.

- `app`: the application's state and what each button, event and page does to it.
- `link`: the Bluetooth link as two state machines, one for each transport
  (`link::android`, `link::desktop`). A machine takes what happened and says
  what to do next.
- `ble`: the values that cross the link, and the framing of settings writes.
- `config`, `names`: the settings and the board names, and what a file may say of
  them.
- `settings_file`, `settings_laws`: editing the settings in their TOML file, and
  what holds of it: owned settings read back, everything else stays.
- `settings_text`, `settings_reading`: a complete settings file for where there is
  none yet, and that a reader finds every setting in it.
- `radio`: the board's `RADIO.TOML`, its editable fields and its backups.
- `document`: the TOML documents of `toml_edit` as rows of keys and values.
- `points`, `gps`, `compass`, `tiles`, `insets`, `durations`: the recorded
  points and their search, the location sources, the heading sensor, the map
  layers, the safe area and how spans of time are written.
- `reals`, `text`: the order of floating point numbers by their bits, and text.

A floating point number is held by its bits. The library compares such numbers;
it never computes with them.

`app/` is the program around the library: the window, the map widget, the
Bluetooth stacks, the sensors, the files and all floating point arithmetic.

`tests/` runs the library.

## What is taken on trust

The items marked `external_body` or declared by `assume_specification`, each
with a doc comment that says what it claims: the calls into `toml_edit` (in
`document` and `settings_file`), into `walkers` for the street map's source (in
`tiles`), and the few functions of `std` on strings (in `text`).
