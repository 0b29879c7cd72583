# cyber_weather

The verified core of the Cyber Weather Console, a desktop dashboard that looks
up Open-Meteo weather for a US city/state or a pair of coordinates over a date
range, shows it with a small animated scene, and keeps a history log that can
be exported as CSV.

- `src/` is the library, written in Verus and verified: weather-code mapping,
  calendar dates (parsing, formatting and the previous day through chrono),
  request validation, the choice between the archive and forecast endpoints,
  shaping and merging of Open-Meteo payloads, geocoding result selection,
  history snapshots and CSV rows, and the console's state transitions.
  Measured readings are carried through the library as a type parameter `R`.
- `tests/` runs the library on concrete inputs.
- `app/` is the desktop program around it: the eframe/egui window and drawing,
  the worker thread, HTTP requests with reqwest, JSON and CSV files, the local
  clock, and the floating-point formatting of readings.
