//! Scenes: the polymorphic units of top-level application logic.
//!
//! A scene exposes `update`, `draw`, `interact`, `is_finished` and a
//! human-readable name.  Concrete scenes live in the embedding
//! application; the [`SceneStack`](crate::scenes::scene_stack::SceneStack)
//! owns them and drives them every tick.

use vstd::prelude::*;
use crate::scenes::scene_stack::SceneTransition;

pub mod scene_stack;
pub mod test_scene;

verus! {

/// An error reported by a scene's own work.  The stack wraps it with
/// the scene's name before passing it upward.
#[derive(Debug)]
pub struct SceneFault {
    /// What the scene reported, rendered as text.
    pub message: String,
}

/// A unit of top-level application logic.
///
/// `Env` is the shared environment handed to every call; `Input` the
/// input-device state handed to `interact`.  A scene's `update` may
/// request a change of the stack by returning a [`SceneTransition`].
pub trait Scene: Sized {
    /// The shared environment a scene works against.
    type Env;

    /// The input-device state a scene reacts to.
    type Input;

    /// The scene's name, as contracts see it.  Scenes whose name the
    /// contracts should track override this; by default it is empty.
    open spec fn name_spec(&self) -> Seq<char> {
        Seq::empty()
    }

    /// Advance the scene one tick and request a stack transition.
    fn update(&mut self, env: &Self::Env) -> Result<SceneTransition<Self>, SceneFault>;

    /// Render the scene.
    fn draw(&mut self, env: &Self::Env) -> Result<(), SceneFault>;

    /// React to the current input state.
    fn interact(&mut self, env: &Self::Env, input: &Self::Input) -> Result<(), SceneFault>;

    /// Whether the program driven by this scene should end.
    fn is_finished(&self, env: &Self::Env) -> Result<bool, SceneFault>;

    /// The scene's human-readable name (not enforced unique).
    fn get_name(&self) -> (r: String)
        ensures
            r@ == self.name_spec();
}

/// A deferred constructor for one scene: the factory maps a manifest
/// envelope to a value of an implementing type, and the stack loader
/// runs `load_scene` against the environment when the loading task
/// executes.
pub trait SceneLoader: Sized {
    /// The scene type this loader constructs.
    type Built: Scene;

    /// Build the scene against the shared environment.
    fn load_scene(&self, env: &<Self::Built as Scene>::Env) -> Result<Self::Built, SceneFault>;
}

} // verus!
