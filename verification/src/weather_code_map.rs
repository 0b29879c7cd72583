//! Weather code mapping from Open-Meteo numeric codes into user-facing labels
//! and animation modes.

use vstd::prelude::*;
use crate::models::AnimationMode;

verus! {

/// The readable description of an Open-Meteo weather code.
pub open spec fn code_description(code: int) -> Seq<char> {
    if code == 0 {
        "Clear sky"@
    } else if code == 1 || code == 2 {
        "Mainly clear"@
    } else if code == 3 {
        "Overcast"@
    } else if code == 45 || code == 48 {
        "Fog"@
    } else if code == 51 || code == 53 || code == 55 {
        "Drizzle"@
    } else if code == 56 || code == 57 {
        "Freezing drizzle"@
    } else if code == 61 || code == 63 || code == 65 {
        "Rain"@
    } else if code == 66 || code == 67 {
        "Freezing rain"@
    } else if code == 71 || code == 73 || code == 75 || code == 77 {
        "Snow"@
    } else if code == 80 || code == 81 || code == 82 {
        "Rain showers"@
    } else if code == 85 || code == 86 {
        "Snow showers"@
    } else if code == 95 {
        "Thunderstorm"@
    } else if code == 96 || code == 99 {
        "Thunderstorm with hail"@
    } else {
        "Unknown conditions"@
    }
}

/// The animation mode that Auto mode uses for an Open-Meteo weather code.
pub open spec fn code_animation(code: int) -> AnimationMode {
    if code == 0 {
        AnimationMode::Sunny
    } else if code == 1 || code == 2 || code == 3 || code == 45 || code == 48 {
        AnimationMode::Cloud
    } else if code == 51 || code == 53 || code == 55 {
        AnimationMode::Rain
    } else if code == 56 || code == 57 {
        AnimationMode::Snow
    } else if code == 61 || code == 63 || code == 65 {
        AnimationMode::Rain
    } else if code == 66 || code == 67 || code == 71 || code == 73 || code == 75 || code == 77 {
        AnimationMode::Snow
    } else if code == 80 || code == 81 || code == 82 {
        AnimationMode::Rain
    } else if code == 85 || code == 86 {
        AnimationMode::Snow
    } else if code == 95 || code == 96 || code == 99 {
        AnimationMode::Rain
    } else {
        AnimationMode::Cloud
    }
}

/// Converts an Open-Meteo weather code into a readable weather description and
/// the default animation mode used when the UI is in Auto mode.
pub fn map_weather_code(code: i32) -> (res: (&'static str, AnimationMode))
    ensures
        res.0@ == code_description(code as int),
        res.1 == code_animation(code as int),
{
    match code {
        0 => ("Clear sky", AnimationMode::Sunny),
        1 | 2 => ("Mainly clear", AnimationMode::Cloud),
        3 => ("Overcast", AnimationMode::Cloud),
        45 | 48 => ("Fog", AnimationMode::Cloud),
        51 | 53 | 55 => ("Drizzle", AnimationMode::Rain),
        56 | 57 => ("Freezing drizzle", AnimationMode::Snow),
        61 | 63 | 65 => ("Rain", AnimationMode::Rain),
        66 | 67 => ("Freezing rain", AnimationMode::Snow),
        71 | 73 | 75 | 77 => ("Snow", AnimationMode::Snow),
        80 | 81 | 82 => ("Rain showers", AnimationMode::Rain),
        85 | 86 => ("Snow showers", AnimationMode::Snow),
        95 => ("Thunderstorm", AnimationMode::Rain),
        96 | 99 => ("Thunderstorm with hail", AnimationMode::Rain),
        _ => ("Unknown conditions", AnimationMode::Cloud),
    }
}

/// The weather code table, read backwards: each description is given for
/// exactly the codes listed with it ("Clear sky" for 0 alone, "Overcast" for 3
/// alone, ...), "Unknown conditions" for every other code; Sunny is shown for
/// code 0 alone, Snow for the freezing and snow codes, Rain for the drizzle,
/// rain, shower and thunderstorm codes, and Cloud for everything else.
pub proof fn lemma_weather_code_table(code: int)
    ensures
        code_description(code) == "Clear sky"@ <==> (code == 0),
        code_description(code) == "Mainly clear"@ <==> (code == 1 || code == 2),
        code_description(code) == "Overcast"@ <==> (code == 3),
        code_description(code) == "Fog"@ <==> (code == 45 || code == 48),
        code_description(code) == "Drizzle"@ <==> (code == 51 || code == 53 || code == 55),
        code_description(code) == "Freezing drizzle"@ <==> (code == 56 || code == 57),
        code_description(code) == "Rain"@ <==> (code == 61 || code == 63 || code == 65),
        code_description(code) == "Freezing rain"@ <==> (code == 66 || code == 67),
        code_description(code) == "Snow"@ <==> (code == 71 || code == 73 || code == 75 || code == 77),
        code_description(code) == "Rain showers"@ <==> (code == 80 || code == 81 || code == 82),
        code_description(code) == "Snow showers"@ <==> (code == 85 || code == 86),
        code_description(code) == "Thunderstorm"@ <==> (code == 95),
        code_description(code) == "Thunderstorm with hail"@ <==> (code == 96 || code == 99),
        code_description(code) == "Unknown conditions"@ <==> !(code == 0 || code == 1 || code == 2 || code == 3 || code == 45 || code == 48 || code == 51 || code == 53 || code == 55 || code == 56 || code == 57 || code == 61 || code == 63 || code == 65 || code == 66 || code == 67 || code == 71 || code == 73 || code == 75 || code == 77 || code == 80 || code == 81 || code == 82 || code == 85 || code == 86 || code == 95 || code == 96 || code == 99),
        code_animation(code) == AnimationMode::Sunny <==> (code == 0),
        code_animation(code) == AnimationMode::Snow <==> (code == 56 || code == 57 || code == 66 || code == 67 || code == 71 || code == 73 || code == 75 || code == 77 || code == 85 || code == 86),
        code_animation(code) == AnimationMode::Rain <==> (code == 51 || code == 53 || code == 55 || code == 61 || code == 63 || code == 65 || code == 80 || code == 81 || code == 82 || code == 95 || code == 96 || code == 99),
        code_animation(code) == AnimationMode::Cloud <==> !(code == 0 || code == 56 || code == 57 || code == 66 || code == 67 || code == 71 || code == 73 || code == 75 || code == 77 || code == 85 || code == 86 || code == 51 || code == 53 || code == 55 || code == 61 || code == 63 || code == 65 || code == 80 || code == 81 || code == 82 || code == 95 || code == 96 || code == 99),
{
    reveal_strlit("Clear sky");
    reveal_strlit("Mainly clear");
    reveal_strlit("Overcast");
    reveal_strlit("Fog");
    reveal_strlit("Drizzle");
    reveal_strlit("Freezing drizzle");
    reveal_strlit("Rain");
    reveal_strlit("Freezing rain");
    reveal_strlit("Snow");
    reveal_strlit("Rain showers");
    reveal_strlit("Snow showers");
    reveal_strlit("Thunderstorm");
    reveal_strlit("Thunderstorm with hail");
    reveal_strlit("Unknown conditions");
    assert("Clear sky"@ != "Mainly clear"@) by { assert("Clear sky"@.len() != "Mainly clear"@.len()); }
    assert("Clear sky"@ != "Overcast"@) by { assert("Clear sky"@.len() != "Overcast"@.len()); }
    assert("Clear sky"@ != "Fog"@) by { assert("Clear sky"@.len() != "Fog"@.len()); }
    assert("Clear sky"@ != "Drizzle"@) by { assert("Clear sky"@.len() != "Drizzle"@.len()); }
    assert("Clear sky"@ != "Freezing drizzle"@) by { assert("Clear sky"@.len() != "Freezing drizzle"@.len()); }
    assert("Clear sky"@ != "Rain"@) by { assert("Clear sky"@.len() != "Rain"@.len()); }
    assert("Clear sky"@ != "Freezing rain"@) by { assert("Clear sky"@.len() != "Freezing rain"@.len()); }
    assert("Clear sky"@ != "Snow"@) by { assert("Clear sky"@.len() != "Snow"@.len()); }
    assert("Clear sky"@ != "Rain showers"@) by { assert("Clear sky"@.len() != "Rain showers"@.len()); }
    assert("Clear sky"@ != "Snow showers"@) by { assert("Clear sky"@.len() != "Snow showers"@.len()); }
    assert("Clear sky"@ != "Thunderstorm"@) by { assert("Clear sky"@.len() != "Thunderstorm"@.len()); }
    assert("Clear sky"@ != "Thunderstorm with hail"@) by { assert("Clear sky"@.len() != "Thunderstorm with hail"@.len()); }
    assert("Clear sky"@ != "Unknown conditions"@) by { assert("Clear sky"@.len() != "Unknown conditions"@.len()); }
    assert("Mainly clear"@ != "Overcast"@) by { assert("Mainly clear"@.len() != "Overcast"@.len()); }
    assert("Mainly clear"@ != "Fog"@) by { assert("Mainly clear"@.len() != "Fog"@.len()); }
    assert("Mainly clear"@ != "Drizzle"@) by { assert("Mainly clear"@.len() != "Drizzle"@.len()); }
    assert("Mainly clear"@ != "Freezing drizzle"@) by { assert("Mainly clear"@.len() != "Freezing drizzle"@.len()); }
    assert("Mainly clear"@ != "Rain"@) by { assert("Mainly clear"@.len() != "Rain"@.len()); }
    assert("Mainly clear"@ != "Freezing rain"@) by { assert("Mainly clear"@.len() != "Freezing rain"@.len()); }
    assert("Mainly clear"@ != "Snow"@) by { assert("Mainly clear"@.len() != "Snow"@.len()); }
    assert("Mainly clear"@ != "Rain showers"@) by { assert("Mainly clear"@[0] != "Rain showers"@[0]); }
    assert("Mainly clear"@ != "Snow showers"@) by { assert("Mainly clear"@[0] != "Snow showers"@[0]); }
    assert("Mainly clear"@ != "Thunderstorm"@) by { assert("Mainly clear"@[0] != "Thunderstorm"@[0]); }
    assert("Mainly clear"@ != "Thunderstorm with hail"@) by { assert("Mainly clear"@.len() != "Thunderstorm with hail"@.len()); }
    assert("Mainly clear"@ != "Unknown conditions"@) by { assert("Mainly clear"@.len() != "Unknown conditions"@.len()); }
    assert("Overcast"@ != "Fog"@) by { assert("Overcast"@.len() != "Fog"@.len()); }
    assert("Overcast"@ != "Drizzle"@) by { assert("Overcast"@.len() != "Drizzle"@.len()); }
    assert("Overcast"@ != "Freezing drizzle"@) by { assert("Overcast"@.len() != "Freezing drizzle"@.len()); }
    assert("Overcast"@ != "Rain"@) by { assert("Overcast"@.len() != "Rain"@.len()); }
    assert("Overcast"@ != "Freezing rain"@) by { assert("Overcast"@.len() != "Freezing rain"@.len()); }
    assert("Overcast"@ != "Snow"@) by { assert("Overcast"@.len() != "Snow"@.len()); }
    assert("Overcast"@ != "Rain showers"@) by { assert("Overcast"@.len() != "Rain showers"@.len()); }
    assert("Overcast"@ != "Snow showers"@) by { assert("Overcast"@.len() != "Snow showers"@.len()); }
    assert("Overcast"@ != "Thunderstorm"@) by { assert("Overcast"@.len() != "Thunderstorm"@.len()); }
    assert("Overcast"@ != "Thunderstorm with hail"@) by { assert("Overcast"@.len() != "Thunderstorm with hail"@.len()); }
    assert("Overcast"@ != "Unknown conditions"@) by { assert("Overcast"@.len() != "Unknown conditions"@.len()); }
    assert("Fog"@ != "Drizzle"@) by { assert("Fog"@.len() != "Drizzle"@.len()); }
    assert("Fog"@ != "Freezing drizzle"@) by { assert("Fog"@.len() != "Freezing drizzle"@.len()); }
    assert("Fog"@ != "Rain"@) by { assert("Fog"@.len() != "Rain"@.len()); }
    assert("Fog"@ != "Freezing rain"@) by { assert("Fog"@.len() != "Freezing rain"@.len()); }
    assert("Fog"@ != "Snow"@) by { assert("Fog"@.len() != "Snow"@.len()); }
    assert("Fog"@ != "Rain showers"@) by { assert("Fog"@.len() != "Rain showers"@.len()); }
    assert("Fog"@ != "Snow showers"@) by { assert("Fog"@.len() != "Snow showers"@.len()); }
    assert("Fog"@ != "Thunderstorm"@) by { assert("Fog"@.len() != "Thunderstorm"@.len()); }
    assert("Fog"@ != "Thunderstorm with hail"@) by { assert("Fog"@.len() != "Thunderstorm with hail"@.len()); }
    assert("Fog"@ != "Unknown conditions"@) by { assert("Fog"@.len() != "Unknown conditions"@.len()); }
    assert("Drizzle"@ != "Freezing drizzle"@) by { assert("Drizzle"@.len() != "Freezing drizzle"@.len()); }
    assert("Drizzle"@ != "Rain"@) by { assert("Drizzle"@.len() != "Rain"@.len()); }
    assert("Drizzle"@ != "Freezing rain"@) by { assert("Drizzle"@.len() != "Freezing rain"@.len()); }
    assert("Drizzle"@ != "Snow"@) by { assert("Drizzle"@.len() != "Snow"@.len()); }
    assert("Drizzle"@ != "Rain showers"@) by { assert("Drizzle"@.len() != "Rain showers"@.len()); }
    assert("Drizzle"@ != "Snow showers"@) by { assert("Drizzle"@.len() != "Snow showers"@.len()); }
    assert("Drizzle"@ != "Thunderstorm"@) by { assert("Drizzle"@.len() != "Thunderstorm"@.len()); }
    assert("Drizzle"@ != "Thunderstorm with hail"@) by { assert("Drizzle"@.len() != "Thunderstorm with hail"@.len()); }
    assert("Drizzle"@ != "Unknown conditions"@) by { assert("Drizzle"@.len() != "Unknown conditions"@.len()); }
    assert("Freezing drizzle"@ != "Rain"@) by { assert("Freezing drizzle"@.len() != "Rain"@.len()); }
    assert("Freezing drizzle"@ != "Freezing rain"@) by { assert("Freezing drizzle"@.len() != "Freezing rain"@.len()); }
    assert("Freezing drizzle"@ != "Snow"@) by { assert("Freezing drizzle"@.len() != "Snow"@.len()); }
    assert("Freezing drizzle"@ != "Rain showers"@) by { assert("Freezing drizzle"@.len() != "Rain showers"@.len()); }
    assert("Freezing drizzle"@ != "Snow showers"@) by { assert("Freezing drizzle"@.len() != "Snow showers"@.len()); }
    assert("Freezing drizzle"@ != "Thunderstorm"@) by { assert("Freezing drizzle"@.len() != "Thunderstorm"@.len()); }
    assert("Freezing drizzle"@ != "Thunderstorm with hail"@) by { assert("Freezing drizzle"@.len() != "Thunderstorm with hail"@.len()); }
    assert("Freezing drizzle"@ != "Unknown conditions"@) by { assert("Freezing drizzle"@.len() != "Unknown conditions"@.len()); }
    assert("Rain"@ != "Freezing rain"@) by { assert("Rain"@.len() != "Freezing rain"@.len()); }
    assert("Rain"@ != "Snow"@) by { assert("Rain"@[0] != "Snow"@[0]); }
    assert("Rain"@ != "Rain showers"@) by { assert("Rain"@.len() != "Rain showers"@.len()); }
    assert("Rain"@ != "Snow showers"@) by { assert("Rain"@.len() != "Snow showers"@.len()); }
    assert("Rain"@ != "Thunderstorm"@) by { assert("Rain"@.len() != "Thunderstorm"@.len()); }
    assert("Rain"@ != "Thunderstorm with hail"@) by { assert("Rain"@.len() != "Thunderstorm with hail"@.len()); }
    assert("Rain"@ != "Unknown conditions"@) by { assert("Rain"@.len() != "Unknown conditions"@.len()); }
    assert("Freezing rain"@ != "Snow"@) by { assert("Freezing rain"@.len() != "Snow"@.len()); }
    assert("Freezing rain"@ != "Rain showers"@) by { assert("Freezing rain"@.len() != "Rain showers"@.len()); }
    assert("Freezing rain"@ != "Snow showers"@) by { assert("Freezing rain"@.len() != "Snow showers"@.len()); }
    assert("Freezing rain"@ != "Thunderstorm"@) by { assert("Freezing rain"@.len() != "Thunderstorm"@.len()); }
    assert("Freezing rain"@ != "Thunderstorm with hail"@) by { assert("Freezing rain"@.len() != "Thunderstorm with hail"@.len()); }
    assert("Freezing rain"@ != "Unknown conditions"@) by { assert("Freezing rain"@.len() != "Unknown conditions"@.len()); }
    assert("Snow"@ != "Rain showers"@) by { assert("Snow"@.len() != "Rain showers"@.len()); }
    assert("Snow"@ != "Snow showers"@) by { assert("Snow"@.len() != "Snow showers"@.len()); }
    assert("Snow"@ != "Thunderstorm"@) by { assert("Snow"@.len() != "Thunderstorm"@.len()); }
    assert("Snow"@ != "Thunderstorm with hail"@) by { assert("Snow"@.len() != "Thunderstorm with hail"@.len()); }
    assert("Snow"@ != "Unknown conditions"@) by { assert("Snow"@.len() != "Unknown conditions"@.len()); }
    assert("Rain showers"@ != "Snow showers"@) by { assert("Rain showers"@[0] != "Snow showers"@[0]); }
    assert("Rain showers"@ != "Thunderstorm"@) by { assert("Rain showers"@[0] != "Thunderstorm"@[0]); }
    assert("Rain showers"@ != "Thunderstorm with hail"@) by { assert("Rain showers"@.len() != "Thunderstorm with hail"@.len()); }
    assert("Rain showers"@ != "Unknown conditions"@) by { assert("Rain showers"@.len() != "Unknown conditions"@.len()); }
    assert("Snow showers"@ != "Thunderstorm"@) by { assert("Snow showers"@[0] != "Thunderstorm"@[0]); }
    assert("Snow showers"@ != "Thunderstorm with hail"@) by { assert("Snow showers"@.len() != "Thunderstorm with hail"@.len()); }
    assert("Snow showers"@ != "Unknown conditions"@) by { assert("Snow showers"@.len() != "Unknown conditions"@.len()); }
    assert("Thunderstorm"@ != "Thunderstorm with hail"@) by { assert("Thunderstorm"@.len() != "Thunderstorm with hail"@.len()); }
    assert("Thunderstorm"@ != "Unknown conditions"@) by { assert("Thunderstorm"@.len() != "Unknown conditions"@.len()); }
    assert("Thunderstorm with hail"@ != "Unknown conditions"@) by { assert("Thunderstorm with hail"@.len() != "Unknown conditions"@.len()); }
}

/// Every weather code maps to a mode that Auto mode can display: never `Auto` itself.
pub proof fn lemma_mapped_mode_is_concrete(code: int)
    ensures
        code_animation(code) != AnimationMode::Auto,
{
}

} // verus!
