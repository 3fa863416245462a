//! A minimal concrete scene: it counts its ticks, requests no
//! transition, and never asks to finish.

use vstd::prelude::*;
use crate::scenes::{Scene, SceneFault};
use crate::scenes::scene_stack::SceneTransition;

verus! {

/// A scene that only counts how often it was updated.
pub struct TestScene {
    /// The scene's fixed display text.
    pub text: &'static str,
    /// How many ticks this scene has seen, wrapping on overflow.
    pub frame_counter: u32,
}

impl Scene for TestScene {
    type Env = u64;

    type Input = u64;

    open spec fn name_spec(&self) -> Seq<char> {
        "TestScene"@
    }

    fn update(&mut self, env: &u64) -> (r: Result<SceneTransition<TestScene>, SceneFault>) {
        self.frame_counter = self.frame_counter.wrapping_add(1);
        Result::Ok(SceneTransition::NONE)
    }

    fn draw(&mut self, env: &u64) -> (r: Result<(), SceneFault>) {
        Result::Ok(())
    }

    fn interact(&mut self, env: &u64, input: &u64) -> (r: Result<(), SceneFault>) {
        Result::Ok(())
    }

    fn is_finished(&self, env: &u64) -> (r: Result<bool, SceneFault>) {
        Result::Ok(false)
    }

    fn get_name(&self) -> (r: String) {
        "TestScene".to_owned()
    }
}

} // verus!
