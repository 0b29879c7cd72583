//! Which scene the weather visualization paints for an animation mode. The
//! painting itself belongs to the program's drawing code.

use vstd::prelude::*;
use crate::models::AnimationMode;

verus! {

/// The scenes the visualization can paint.
#[derive(Debug, Clone, Copy, PartialEq, Eq, Structural)]
pub enum WeatherScene {
    Sunny,
    Cloud,
    Rain,
    Snow,
}

/// The scene painted for a mode: Auto, before a result has chosen a mode, and
/// Cloud both paint clouds.
pub fn scene_for_mode(mode: AnimationMode) -> (res: WeatherScene)
    ensures
        res == (match mode {
            AnimationMode::Auto => WeatherScene::Cloud,
            AnimationMode::Sunny => WeatherScene::Sunny,
            AnimationMode::Rain => WeatherScene::Rain,
            AnimationMode::Snow => WeatherScene::Snow,
            AnimationMode::Cloud => WeatherScene::Cloud,
        }),
{
    match mode {
        AnimationMode::Auto => WeatherScene::Cloud,
        AnimationMode::Sunny => WeatherScene::Sunny,
        AnimationMode::Rain => WeatherScene::Rain,
        AnimationMode::Snow => WeatherScene::Snow,
        AnimationMode::Cloud => WeatherScene::Cloud,
    }
}

} // verus!
