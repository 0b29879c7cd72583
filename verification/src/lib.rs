//! Verified core of the Cyber Weather Console: weather-code mapping, calendar
//! dates, request validation, Open-Meteo payload shaping, history records and
//! the console's state transitions.
//!
//! Measured readings (temperatures, precipitation, wind speeds, coordinates) are
//! carried through this library as an opaque type parameter `R`: the library
//! copies them from one record to another but never inspects them.

pub mod weather_code_map;
pub mod models;
pub mod text;
pub mod calendar;
pub mod weather_service;
pub mod geocoding_service;
pub mod history_service;
pub mod console;
pub mod animation;
