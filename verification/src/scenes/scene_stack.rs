//! The scene stack: an ordered collection of scenes and the state
//! machine that applies transitions and dispatches per-tick calls.
//!
//! The stack owns its scenes outright and is mutated in place; the
//! current scene is always the last element.  A stack of depth zero is
//! a distinguished error state: every dispatch operation reports it
//! instead of proceeding.

use vstd::prelude::*;
use vstd::assert_seqs_equal;
use crate::scenes::{Scene, SceneFault, SceneLoader};
use crate::load::{JSONLoad, LoadError, ReadFault, array_of, envelope_id_of, envelope_shaped,
    field_of, json_of, load_json_from_str, check_load_id, scene_paths_from_value,
    string_list_shaped, string_of};
use crate::loading::Task;

verus! {

/// The type identifier a scene-stack manifest must declare.
pub const SCENE_STACK_FILE_ID: &'static str = "scene_stack";

/// A control directive a scene may request from its `update` call.
/// It is consumed exactly once by the stack.
pub enum SceneTransition<S> {
    /// Remove the top so-many scenes; all-or-nothing.
    POP(usize),
    /// Append a scene on top.
    PUSH(S),
    /// Exchange the scenes at two positions.
    SWAP(usize, usize),
    /// Overwrite the scene at a position.
    REPLACE(usize, S),
    /// Remove every scene but the bottom one.
    CLEAR,
    /// Leave the stack as it is.
    NONE,
}

/// An error from the stack itself: a dispatch on an empty stack, or a
/// transition whose precondition does not hold.  Scene-reported errors
/// are wrapped with the scene's name.
#[derive(Debug)]
pub enum SceneStackError {
    /// A dispatch operation found the stack empty.
    SceneStackEmptyError,
    /// A pop asked for more scenes than the stack holds.
    SceneStackPopError {
        /// How many scenes the stack held.
        num_scenes: usize,
        /// How many the transition asked to remove.
        pop_amount: usize,
    },
    /// A swap named a position outside the stack.
    SceneStackSwapError {
        /// The offending index.
        bad_index: usize,
        /// The stack's depth at the time.
        length: usize,
    },
    /// A replacement named a position outside the stack.
    SceneStackReplaceError {
        /// The offending index.
        bad_index: usize,
        /// The stack's depth at the time.
        length: usize,
    },
    /// The top scene's `update` failed.
    SceneStackUpdateError {
        /// The name of the scene that failed.
        scene_name: String,
        /// What the scene reported.
        source: SceneFault,
    },
    /// The top scene's `draw` failed.
    SceneStackDrawError {
        /// The name of the scene that failed.
        scene_name: String,
        /// What the scene reported.
        source: SceneFault,
    },
    /// The top scene's `interact` failed.
    SceneStackInteractError {
        /// The name of the scene that failed.
        scene_name: String,
        /// What the scene reported.
        source: SceneFault,
    },
    /// The top scene's `is_finished` failed.
    SceneStackIsFinishedError {
        /// The name of the scene that failed.
        scene_name: String,
        /// What the scene reported.
        source: SceneFault,
    },
}

/// The ordered collection of scenes.  The current scene is the last
/// element; only it is updated, drawn and handed input.
pub struct SceneStack<S> {
    /// The scenes, bottom first.
    pub stack: Vec<S>,
}

impl<S> View for SceneStack<S> {
    type V = Seq<S>;

    open spec fn view(&self) -> Seq<S> {
        self.stack@
    }
}

/// Whether a transition's precondition holds on a stack: a pop must not
/// exceed the depth, swap and replace positions must be in range, and a
/// clear needs a bottom scene to keep.  Pushing and doing nothing are
/// always admissible.
pub open spec fn transition_admissible<S>(s: Seq<S>, t: SceneTransition<S>) -> bool {
    match t {
        SceneTransition::POP(n) => n <= s.len(),
        SceneTransition::PUSH(_) => true,
        SceneTransition::SWAP(i, j) => i < s.len() && j < s.len(),
        SceneTransition::REPLACE(i, _) => i < s.len(),
        SceneTransition::CLEAR => s.len() >= 1,
        SceneTransition::NONE => true,
    }
}

/// The stack an admissible transition produces: a pop keeps the first
/// `depth - n` scenes in order, a push appends, a swap exchanges two
/// positions, a replacement overwrites one, a clear keeps exactly the
/// bottom scene, and `NONE` changes nothing.
pub open spec fn transition_apply<S>(s: Seq<S>, t: SceneTransition<S>) -> Seq<S>
    recommends
        transition_admissible(s, t),
{
    match t {
        SceneTransition::POP(n) => s.take(s.len() as int - n as int),
        SceneTransition::PUSH(sc) => s.push(sc),
        SceneTransition::SWAP(i, j) => s.update(i as int, s[j as int]).update(j as int, s[i as int]),
        SceneTransition::REPLACE(i, sc) => s.update(i as int, sc),
        SceneTransition::CLEAR => seq![s[0]],
        SceneTransition::NONE => s,
    }
}

/// The error an inadmissible transition reports: the pop amount against
/// the depth, the first out-of-range position of a swap, the position of
/// a replacement, or the empty stack for a clear.
pub open spec fn transition_reject<S>(s: Seq<S>, t: SceneTransition<S>) -> SceneStackError
    recommends
        !transition_admissible(s, t),
{
    match t {
        SceneTransition::POP(n) => SceneStackError::SceneStackPopError {
            num_scenes: s.len() as usize,
            pop_amount: n,
        },
        SceneTransition::SWAP(i, j) => if i >= s.len() {
            SceneStackError::SceneStackSwapError { bad_index: i, length: s.len() as usize }
        } else {
            SceneStackError::SceneStackSwapError { bad_index: j, length: s.len() as usize }
        },
        SceneTransition::REPLACE(i, _) => SceneStackError::SceneStackReplaceError {
            bad_index: i,
            length: s.len() as usize,
        },
        _ => SceneStackError::SceneStackEmptyError,
    }
}

impl<S> SceneStack<S> {
    /// Wrap an ordered list of scenes, bottom first, into a stack.
    pub fn new(scenes: Vec<S>) -> (r: SceneStack<S>)
        ensures
            r@ == scenes@,
    {
        SceneStack { stack: scenes }
    }

    /// The number of scenes on the stack.
    pub fn depth(&self) -> (r: usize)
        ensures
            r == self@.len(),
    {
        self.stack.len()
    }

    /// Apply one transition, atomically: an admissible transition
    /// changes the stack as [`transition_apply`] says; an inadmissible
    /// one reports the error [`transition_reject`] says and leaves the
    /// stack exactly as it was.
    pub fn apply_transition(&mut self, transition: SceneTransition<S>) -> (r: Result<
        (),
        SceneStackError,
    >)
        ensures
            transition_admissible(old(self)@, transition) ==> r is Ok && final(self)@
                == transition_apply(old(self)@, transition),
            !transition_admissible(old(self)@, transition) ==> r == Result::<
                (),
                SceneStackError,
            >::Err(transition_reject(old(self)@, transition)) && final(self)@ == old(self)@,
    {
        match transition {
            SceneTransition::POP(quantity) => {
                if quantity > self.stack.len() {
                    return Result::Err(
                        SceneStackError::SceneStackPopError {
                            num_scenes: self.stack.len(),
                            pop_amount: quantity,
                        },
                    );
                }
                let remaining = self.stack.len() - quantity;
                self.stack.truncate(remaining);
                Result::Ok(())
            },
            SceneTransition::PUSH(new_scene) => {
                self.stack.push(new_scene);
                Result::Ok(())
            },
            SceneTransition::SWAP(scene_1, scene_2) => {
                let length = self.stack.len();
                if scene_1 >= length {
                    return Result::Err(
                        SceneStackError::SceneStackSwapError { bad_index: scene_1, length },
                    );
                }
                if scene_2 >= length {
                    return Result::Err(
                        SceneStackError::SceneStackSwapError { bad_index: scene_2, length },
                    );
                }
                if scene_1 != scene_2 {
                    let ghost pre = self.stack@;
                    let big = if scene_1 > scene_2 {
                        scene_1
                    } else {
                        scene_2
                    };
                    let small = if scene_1 > scene_2 {
                        scene_2
                    } else {
                        scene_1
                    };
                    let upper = self.stack.remove(big);
                    self.stack.insert(small, upper);
                    let lower = self.stack.remove(small + 1);
                    self.stack.insert(big, lower);
                    proof {
                        assert_seqs_equal!(
                            self.stack@,
                            pre.update(scene_1 as int, pre[scene_2 as int])
                                .update(scene_2 as int, pre[scene_1 as int])
                        );
                    }
                }
                Result::Ok(())
            },
            SceneTransition::REPLACE(index, new_scene) => {
                if index >= self.stack.len() {
                    return Result::Err(
                        SceneStackError::SceneStackReplaceError {
                            bad_index: index,
                            length: self.stack.len(),
                        },
                    );
                }
                let ghost pre = self.stack@;
                let ghost incoming = new_scene;
                self.stack.insert(index, new_scene);
                let replaced = self.stack.remove(index + 1);
                proof {
                    assert_seqs_equal!(self.stack@, pre.update(index as int, incoming));
                }
                Result::Ok(())
            },
            SceneTransition::CLEAR => {
                if self.stack.len() == 0 {
                    return Result::Err(SceneStackError::SceneStackEmptyError);
                }
                self.stack.truncate(1);
                proof {
                    assert_seqs_equal!(self.stack@, seq![old(self)@[0]]);
                }
                Result::Ok(())
            },
            SceneTransition::NONE => Result::Ok(()),
        }
    }
}

/// The stack `pre` with its top scene replaced by `s1` (the top scene
/// as a dispatch call left it).
pub open spec fn with_new_top<S>(pre: Seq<S>, s1: S) -> Seq<S> {
    pre.update(pre.len() - 1, s1)
}

/// An `update` dispatch where the top scene's own `update` failed: the
/// mutated top stays in place and the error carries the scene's name.
pub open spec fn update_failed_outcome<S: Scene>(
    pre: Seq<S>,
    post: Seq<S>,
    r: Result<(), SceneStackError>,
) -> bool {
    exists|s1: S|
        post == #[trigger] with_new_top(pre, s1) && (r matches Err(e) && (e matches
        SceneStackError::SceneStackUpdateError { scene_name, source } && scene_name@
            == pre.last().name_spec()))
}

/// An `update` dispatch where the top scene requested an admissible
/// transition: the stack with the mutated top, transformed by it.
pub open spec fn update_applied_outcome<S: Scene>(
    pre: Seq<S>,
    post: Seq<S>,
    r: Result<(), SceneStackError>,
) -> bool {
    exists|s1: S, t: SceneTransition<S>|
        transition_admissible(with_new_top(pre, s1), t) && r is Ok && post
            == #[trigger] transition_apply(#[trigger] with_new_top(pre, s1), t)
}

/// An `update` dispatch where the top scene requested an inadmissible
/// transition: the error it earns, on the stack with the mutated top,
/// which is otherwise left unchanged.
pub open spec fn update_rejected_outcome<S: Scene>(
    pre: Seq<S>,
    post: Seq<S>,
    r: Result<(), SceneStackError>,
) -> bool {
    exists|s1: S, t: SceneTransition<S>|
        !transition_admissible(with_new_top(pre, s1), t) && post == with_new_top(pre, s1) && r
            == Result::<(), SceneStackError>::Err(
            #[trigger] transition_reject(#[trigger] with_new_top(pre, s1), t),
        )
}

/// Everything an `update` dispatch on a non-empty stack may do, for an
/// arbitrary top scene.
pub open spec fn update_outcome<S: Scene>(
    pre: Seq<S>,
    post: Seq<S>,
    r: Result<(), SceneStackError>,
) -> bool {
    ||| update_failed_outcome(pre, post, r)
    ||| update_applied_outcome(pre, post, r)
    ||| update_rejected_outcome(pre, post, r)
}

/// A dispatch call touches only the top scene: the depth is kept and
/// every scene below the top is kept.
pub open spec fn keeps_below_top<S>(pre: Seq<S>, post: Seq<S>) -> bool {
    post.len() == pre.len() && forall|i: int| 0 <= i < pre.len() - 1 ==> post[i] == pre[i]
}

impl<S: Scene> SceneStack<S> {
    /// Advance the stack one tick: ask the current (top) scene for a
    /// transition, then apply it, in one atomic step.  An empty stack,
    /// a failing scene, and an inadmissible transition each surface as
    /// a distinct error; the stack is never left half-transitioned.
    pub fn update(&mut self, env: &S::Env) -> (r: Result<(), SceneStackError>)
        ensures
            old(self)@.len() == 0 ==> r == Result::<(), SceneStackError>::Err(
                SceneStackError::SceneStackEmptyError,
            ) && final(self)@ == old(self)@,
            old(self)@.len() > 0 ==> update_outcome(old(self)@, final(self)@, r),
    {
        let depth = self.stack.len();
        if depth == 0 {
            return Result::Err(SceneStackError::SceneStackEmptyError);
        }
        let name = self.stack[depth - 1].get_name();
        let mut top = match self.stack.pop() {
            Option::Some(scene) => scene,
            Option::None => {
                return Result::Err(SceneStackError::SceneStackEmptyError);
            },
        };
        let requested = top.update(env);
        self.stack.push(top);
        proof {
            assert_seqs_equal!(self.stack@, with_new_top(old(self)@, self.stack@.last()));
        }
        match requested {
            Result::Ok(transition) => {
                let applied = self.apply_transition(transition);
                proof {
                    assert(update_outcome(old(self)@, self@, applied));
                }
                applied
            },
            Result::Err(fault) => {
                let wrapped = SceneStackError::SceneStackUpdateError {
                    scene_name: name,
                    source: fault,
                };
                Result::Err(wrapped)
            },
        }
    }

    /// Draw the current scene.  Fails on an empty stack, or with the
    /// scene's name if the scene's own draw fails; the rest of the
    /// stack is untouched either way.
    pub fn draw(&mut self, env: &S::Env) -> (r: Result<(), SceneStackError>)
        ensures
            old(self)@.len() == 0 ==> r == Result::<(), SceneStackError>::Err(
                SceneStackError::SceneStackEmptyError,
            ) && final(self)@ == old(self)@,
            old(self)@.len() > 0 ==> keeps_below_top(old(self)@, final(self)@),
            old(self)@.len() > 0 ==> match r {
                Result::Ok(_) => true,
                Result::Err(e) => e matches SceneStackError::SceneStackDrawError {
                    scene_name,
                    source,
                } && scene_name@ == old(self)@.last().name_spec(),
            },
    {
        let depth = self.stack.len();
        if depth == 0 {
            return Result::Err(SceneStackError::SceneStackEmptyError);
        }
        let name = self.stack[depth - 1].get_name();
        let mut top = match self.stack.pop() {
            Option::Some(scene) => scene,
            Option::None => {
                return Result::Err(SceneStackError::SceneStackEmptyError);
            },
        };
        let drawn = top.draw(env);
        self.stack.push(top);
        match drawn {
            Result::Ok(()) => Result::Ok(()),
            Result::Err(fault) => Result::Err(
                SceneStackError::SceneStackDrawError { scene_name: name, source: fault },
            ),
        }
    }

    /// Hand the current input state to the current scene.  Fails on an
    /// empty stack, or with the scene's name if the scene's own
    /// interaction fails; the rest of the stack is untouched either way.
    pub fn interact(&mut self, env: &S::Env, input: &S::Input) -> (r: Result<(), SceneStackError>)
        ensures
            old(self)@.len() == 0 ==> r == Result::<(), SceneStackError>::Err(
                SceneStackError::SceneStackEmptyError,
            ) && final(self)@ == old(self)@,
            old(self)@.len() > 0 ==> keeps_below_top(old(self)@, final(self)@),
            old(self)@.len() > 0 ==> match r {
                Result::Ok(_) => true,
                Result::Err(e) => e matches SceneStackError::SceneStackInteractError {
                    scene_name,
                    source,
                } && scene_name@ == old(self)@.last().name_spec(),
            },
    {
        let depth = self.stack.len();
        if depth == 0 {
            return Result::Err(SceneStackError::SceneStackEmptyError);
        }
        let name = self.stack[depth - 1].get_name();
        let mut top = match self.stack.pop() {
            Option::Some(scene) => scene,
            Option::None => {
                return Result::Err(SceneStackError::SceneStackEmptyError);
            },
        };
        let outcome = top.interact(env, input);
        self.stack.push(top);
        match outcome {
            Result::Ok(()) => Result::Ok(()),
            Result::Err(fault) => Result::Err(
                SceneStackError::SceneStackInteractError { scene_name: name, source: fault },
            ),
        }
    }

    /// Ask the current scene whether the program should end.  Fails on
    /// an empty stack, or with the scene's name if the scene's own
    /// check fails; the stack itself is never changed.
    pub fn is_finished(&self, env: &S::Env) -> (r: Result<bool, SceneStackError>)
        ensures
            self@.len() == 0 ==> r == Result::<bool, SceneStackError>::Err(
                SceneStackError::SceneStackEmptyError,
            ),
            self@.len() > 0 ==> match r {
                Result::Ok(_) => true,
                Result::Err(e) => e matches SceneStackError::SceneStackIsFinishedError {
                    scene_name,
                    source,
                } && scene_name@ == self@.last().name_spec(),
            },
    {
        let depth = self.stack.len();
        if depth == 0 {
            return Result::Err(SceneStackError::SceneStackEmptyError);
        }
        let top = &self.stack[depth - 1];
        match top.is_finished(env) {
            Result::Ok(done) => Result::Ok(done),
            Result::Err(fault) => Result::Err(
                SceneStackError::SceneStackIsFinishedError {
                    scene_name: top.get_name(),
                    source: fault,
                },
            ),
        }
    }
}


/// What can go wrong while a scene-stack loading task executes: each
/// variant carries the offending path or envelope and the root cause.
#[derive(Debug)]
#[allow(inconsistent_fields)]
pub enum SceneStackLoaderError {
    /// The stack manifest could not be read, parsed, or understood.
    JSONDeserializeFromFileError {
        /// The underlying failure.
        source: LoadError,
        /// The stack manifest's path.
        path: String,
    },
    /// One scene's envelope could not be read or parsed.
    JSONLoadFromFileError {
        /// The underlying failure.
        source: LoadError,
        /// That scene's path.
        path: String,
    },
    /// The scene factory did not recognise a scene's envelope.
    SceneFactoryError {
        /// What the factory reported.
        source: SceneFault,
        /// The envelope the factory was handed.
        scene_json: JSONLoad,
        /// That scene's path.
        path: String,
    },
    /// A recognised scene's own construction failed.
    SceneLoadError {
        /// What the construction reported.
        source: SceneFault,
        /// That scene's path.
        path: String,
    },
}

/// Builds a scene stack from a manifest naming one file per scene, in
/// order, delegating each scene's construction to the host's factory.
pub struct SceneStackLoader<G> {
    /// The path of the stack manifest.
    pub scene_stack_file: String,
    /// Maps a scene's envelope to that scene's loader.
    pub scene_factory: G,
}

/// That reading this path through the reader may return exactly this
/// text.
pub open spec fn read_ok<R>(reader: R, path: Seq<char>, text: String) -> bool where R: Fn(
    &str,
) -> Result<String, ReadFault> {
    exists|p: &str|
        p@ == path && #[trigger] call_ensures(
            reader,
            (p,),
            Result::<String, ReadFault>::Ok(text),
        )
}

/// That reading this path through the reader may fail with exactly this
/// fault.
pub open spec fn read_failed<R>(reader: R, path: Seq<char>, fault: ReadFault) -> bool where R: Fn(
    &str,
) -> Result<String, ReadFault> {
    exists|p: &str|
        p@ == path && #[trigger] call_ensures(
            reader,
            (p,),
            Result::<String, ReadFault>::Err(fault),
        )
}

/// Whether this text is a well-formed stack manifest: valid JSON of the
/// envelope shape, declaring the stack identifier, whose payload lists
/// scene paths.
pub open spec fn stack_manifest_shaped(s: Seq<char>) -> bool {
    &&& json_of(s) matches Some(v)
    &&& envelope_shaped(v)
    &&& envelope_id_of(v) == Some(SCENE_STACK_FILE_ID@)
    &&& (field_of(v, "actual_value"@) matches Some(av) && string_list_shaped(av, "scene_paths"@))
}

/// That the reader supplied, for the manifest path, a text that is a
/// well-formed stack manifest.
pub open spec fn manifest_accepted<R>(reader: R, file: Seq<char>) -> bool where R: Fn(&str) -> Result<
    String,
    ReadFault,
> {
    exists|t: String| #[trigger] read_ok(reader, file, t) && stack_manifest_shaped(t@)
}

/// Where a manifest-stage cause comes from: each variant is tied to
/// what the reader returned on the manifest path and to what the text
/// parsed into.
pub open spec fn manifest_cause_placed<R>(reader: R, file: Seq<char>, cause: LoadError) -> bool where
    R: Fn(&str) -> Result<String, ReadFault>,
 {
    match cause {
        LoadError::ReadError { path, source } => path@ == file && read_failed(
            reader,
            file,
            source,
        ),
        LoadError::ValueConversionError { string_value, source } => exists|t: String|
            #[trigger] read_ok(reader, file, t) && t@ == string_value@ && json_of(t@) is None,
        LoadError::JSONLoadConversionError { value } => exists|t: String|
            #[trigger] read_ok(reader, file, t) && json_of(t@) == Some(value) && !envelope_shaped(
                value,
            ),
        LoadError::LoadIDError { actual, expected } => {
            &&& expected@ == SCENE_STACK_FILE_ID@
            &&& actual@ != SCENE_STACK_FILE_ID@
            &&& exists|t: String|
                #[trigger] read_ok(reader, file, t) && (json_of(t@) matches Some(v)
                    && envelope_id_of(v) == Some(actual@))
        },
        LoadError::DeserializationError { value } => exists|t: String|
            #[trigger] read_ok(reader, file, t) && (json_of(t@) matches Some(v) && field_of(
                v,
                "actual_value"@,
            ) == Some(value)) && !string_list_shaped(value, "scene_paths"@),
    }
}

/// Where a scene-envelope cause comes from: a failed read of that
/// scene's path, its text not parsing, or its text parsing to a value
/// that is not an envelope.
pub open spec fn scene_cause_placed<R>(reader: R, path: Seq<char>, cause: LoadError) -> bool where
    R: Fn(&str) -> Result<String, ReadFault>,
 {
    match cause {
        LoadError::ReadError { path: failed_path, source } => failed_path@ == path && read_failed(
            reader,
            path,
            source,
        ),
        LoadError::ValueConversionError { string_value, source } => exists|t: String|
            #[trigger] read_ok(reader, path, t) && t@ == string_value@ && json_of(t@) is None,
        LoadError::JSONLoadConversionError { value } => exists|t: String|
            #[trigger] read_ok(reader, path, t) && json_of(t@) == Some(value) && !envelope_shaped(
                value,
            ),
        _ => false,
    }
}

/// That this envelope was read and parsed from this path through the
/// reader.
pub open spec fn envelope_from<R>(reader: R, path: Seq<char>, envelope: JSONLoad) -> bool where
    R: Fn(&str) -> Result<String, ReadFault>,
 {
    exists|t: String|
        #[trigger] read_ok(reader, path, t) && (json_of(t@) matches Some(v) && envelope_shaped(v)
            && envelope_id_of(v) == Some(envelope.load_type_id@) && field_of(v, "actual_value"@)
            == Some(envelope.actual_value))
}

/// The scene paths a well-formed stack manifest text lists, as
/// character sequences, in manifest order.
pub open spec fn manifest_scene_paths(s: Seq<char>) -> Seq<Seq<char>>
    recommends
        stack_manifest_shaped(s),
{
    let v = json_of(s)->Some_0;
    let av = field_of(v, "actual_value"@)->Some_0;
    let listed = field_of(av, "scene_paths"@)->Some_0;
    let vs = array_of(listed)->Some_0;
    Seq::new(vs.len(), |i: int| string_of(vs[i])->Some_0)
}

/// That the scene at this path was supplied and taken: some envelope,
/// read and parsed from the path through the reader, is one the factory
/// can return a loader for.
pub open spec fn scene_accepted<L, G, R>(factory: G, reader: R, path: Seq<char>) -> bool where
    G: Fn(&JSONLoad) -> Result<L, SceneFault>,
    R: Fn(&str) -> Result<String, ReadFault>,
 {
    exists|j: JSONLoad, built: L|
        #[trigger] envelope_from(reader, path, j) && #[trigger] call_ensures(
            factory,
            (&j,),
            Result::<L, SceneFault>::Ok(built),
        )
}

/// What a built stack owes to manifest text `t`: the reader supplied
/// `t` for the loader's path, `t` is a well-formed stack manifest, the
/// stack holds exactly one scene per listed path, and each listed path
/// yielded an envelope the factory accepts.
pub open spec fn load_succeeded_from<Sc, L, G, R>(
    stack: SceneStack<Sc>,
    file: Seq<char>,
    factory: G,
    reader: R,
    t: String,
) -> bool where
    G: Fn(&JSONLoad) -> Result<L, SceneFault>,
    R: Fn(&str) -> Result<String, ReadFault>,
 {
    &&& read_ok(reader, file, t)
    &&& stack_manifest_shaped(t@)
    &&& stack@.len() == manifest_scene_paths(t@).len()
    &&& forall|i: int|
        0 <= i < manifest_scene_paths(t@).len() ==> scene_accepted::<L, G, R>(
            factory,
            reader,
            #[trigger] manifest_scene_paths(t@)[i],
        )
}

/// That some manifest text accounts for this built stack, as
/// [`load_succeeded_from`] says.
pub open spec fn load_succeeded<Sc, L, G, R>(
    stack: SceneStack<Sc>,
    file: Seq<char>,
    factory: G,
    reader: R,
) -> bool where
    G: Fn(&JSONLoad) -> Result<L, SceneFault>,
    R: Fn(&str) -> Result<String, ReadFault>,
 {
    exists|t: String|
        #[trigger] load_succeeded_from::<Sc, L, G, R>(stack, file, factory, reader, t)
}

/// What a scene-stack loading task may return.  A built stack means the
/// reader supplied a well-formed stack manifest for the loader's path,
/// the stack holds one scene per path that manifest lists, in order,
/// and every listed path yielded an envelope the factory accepts.
/// Every error places the blame: a manifest-stage error names the
/// manifest path and ties its cause to what the reader and parser did
/// there; a scene-envelope error does the same for that scene's path; a
/// factory error holds an envelope, read and parsed from the named
/// path, that the factory indeed refuses with the reported fault; and a
/// construction error names a path whose envelope the factory had
/// accepted.
pub open spec fn load_task_post<Sc, L, G, R>(
    file: Seq<char>,
    factory: G,
    reader: R,
    r: Result<SceneStack<Sc>, SceneStackLoaderError>,
) -> bool where
    G: Fn(&JSONLoad) -> Result<L, SceneFault>,
    R: Fn(&str) -> Result<String, ReadFault>,
 {
    match r {
        Result::Ok(stack) => load_succeeded::<Sc, L, G, R>(stack, file, factory, reader),
        Result::Err(e) => match e {
            SceneStackLoaderError::JSONDeserializeFromFileError { source, path } => path@ == file
                && manifest_cause_placed(reader, file, source),
            SceneStackLoaderError::JSONLoadFromFileError { source, path } => manifest_accepted(
                reader,
                file,
            ) && scene_cause_placed(reader, path@, source),
            SceneStackLoaderError::SceneFactoryError { source, scene_json, path } => {
                &&& manifest_accepted(reader, file)
                &&& envelope_from(reader, path@, scene_json)
                &&& call_ensures(factory, (&scene_json,), Result::<L, SceneFault>::Err(source))
            },
            SceneStackLoaderError::SceneLoadError { source, path } => manifest_accepted(
                reader,
                file,
            ) && scene_accepted::<L, G, R>(factory, reader, path@),
        },
    }
}

impl<G> SceneStackLoader<G> {
    /// Remember the manifest path and the factory to consult for each
    /// scene.
    pub fn new(file_path: String, scene_factory: G) -> (r: SceneStackLoader<G>)
        ensures
            r.scene_stack_file == file_path,
            r.scene_factory == scene_factory,
    {
        SceneStackLoader { scene_stack_file: file_path, scene_factory }
    }

    /// Produce the deferred task that builds the whole stack.  When
    /// executed against the environment it reads the stack manifest
    /// through `reader`, then, for each scene path in manifest order,
    /// reads and parses that scene's envelope, asks the factory for its
    /// loader, and builds the scene.  A built stack holds one scene per
    /// manifest entry, each from an envelope the factory accepted; the
    /// first failure aborts the task with an error placing the blame,
    /// and no later scene is built.
    pub fn load<L, R>(self, reader: R) -> (t: Task<
        SceneStack<L::Built>,
        <L::Built as Scene>::Env,
        SceneStackLoaderError,
        impl FnOnce(<L::Built as Scene>::Env) -> Result<
            SceneStack<L::Built>,
            SceneStackLoaderError,
        >,
    >) where
        L: SceneLoader,
        G: Fn(&JSONLoad) -> Result<L, SceneFault>,
        R: Fn(&str) -> Result<String, ReadFault>,

        requires
            forall|j: JSONLoad| call_requires(self.scene_factory, (&j,)),
            forall|p: &str| call_requires(reader, (p,)),
        ensures
            forall|env: <L::Built as Scene>::Env| call_requires(t.function, (env,)),
            forall|env: <L::Built as Scene>::Env, r: Result<
                SceneStack<L::Built>,
                SceneStackLoaderError,
            >|
                call_ensures(t.function, (env,), r) ==> load_task_post(
                    self.scene_stack_file@,
                    self.scene_factory,
                    reader,
                    r,
                ),
    {
        let path = self.scene_stack_file;
        let factory = self.scene_factory;
        let run = move |env: <L::Built as Scene>::Env| -> (r: Result<
            SceneStack<L::Built>,
            SceneStackLoaderError,
        >)
            requires
                forall|j: JSONLoad| call_requires(factory, (&j,)),
                forall|p: &str| call_requires(reader, (p,)),
            ensures
                load_task_post(path@, factory, reader, r),
            {
                let path_str = path.as_str();
                let text = match reader(path_str) {
                    Result::Ok(t) => t,
                    Result::Err(fault) => {
                        proof {
                            assert(read_failed(reader, path@, fault));
                        }
                        let cause = LoadError::ReadError { path: path.clone(), source: fault };
                        return Result::Err(
                            SceneStackLoaderError::JSONDeserializeFromFileError {
                                source: cause,
                                path: path.clone(),
                            },
                        );
                    },
                };
                proof {
                    assert(read_ok(reader, path@, text));
                }
                let envelope = match load_json_from_str(text.as_str()) {
                    Result::Ok(j) => j,
                    Result::Err(e) => {
                        return Result::Err(
                            SceneStackLoaderError::JSONDeserializeFromFileError {
                                source: e,
                                path: path.clone(),
                            },
                        );
                    },
                };
                match check_load_id(&envelope, SCENE_STACK_FILE_ID) {
                    Result::Ok(_) => {},
                    Result::Err(e) => {
                        return Result::Err(
                            SceneStackLoaderError::JSONDeserializeFromFileError {
                                source: e,
                                path: path.clone(),
                            },
                        );
                    },
                }
                let scene_paths = match scene_paths_from_value(&envelope.actual_value) {
                    Result::Ok(p) => p,
                    Result::Err(e) => {
                        return Result::Err(
                            SceneStackLoaderError::JSONDeserializeFromFileError {
                                source: e,
                                path: path.clone(),
                            },
                        );
                    },
                };
                proof {
                    assert(stack_manifest_shaped(text@));
                    assert(manifest_accepted(reader, path@));
                    assert(scene_paths@.len() == manifest_scene_paths(text@).len());
                    assert(forall|k: int|
                        0 <= k < scene_paths@.len() ==> #[trigger] manifest_scene_paths(text@)[k]
                            == scene_paths@[k]@);
                }
                let mut scene_vec: Vec<L::Built> = Vec::new();
                let mut i: usize = 0;
                while i < scene_paths.len()
                    invariant
                        i <= scene_paths@.len(),
                        forall|j: JSONLoad| call_requires(factory, (&j,)),
                        forall|p: &str| call_requires(reader, (p,)),
                        manifest_accepted(reader, path@),
                        read_ok(reader, path@, text),
                        stack_manifest_shaped(text@),
                        scene_paths@.len() == manifest_scene_paths(text@).len(),
                        forall|k: int|
                            0 <= k < scene_paths@.len() ==> #[trigger] manifest_scene_paths(
                                text@,
                            )[k] == scene_paths@[k]@,
                        scene_vec@.len() == i,
                        forall|k: int|
                            0 <= k < i ==> scene_accepted::<L, G, R>(
                                factory,
                                reader,
                                #[trigger] manifest_scene_paths(text@)[k],
                            ),
                    decreases scene_paths@.len() - i,
                {
                    let scene_path = &scene_paths[i];
                    let scene_path_str = scene_path.as_str();
                    let scene_text = match reader(scene_path_str) {
                        Result::Ok(t) => t,
                        Result::Err(fault) => {
                            proof {
                                assert(read_failed(reader, scene_path@, fault));
                            }
                            let cause = LoadError::ReadError {
                                path: scene_path.clone(),
                                source: fault,
                            };
                            return Result::Err(
                                SceneStackLoaderError::JSONLoadFromFileError {
                                    source: cause,
                                    path: scene_path.clone(),
                                },
                            );
                        },
                    };
                    proof {
                        assert(read_ok(reader, scene_path@, scene_text));
                    }
                    let scene_value = match load_json_from_str(scene_text.as_str()) {
                        Result::Ok(j) => j,
                        Result::Err(e) => {
                            return Result::Err(
                                SceneStackLoaderError::JSONLoadFromFileError {
                                    source: e,
                                    path: scene_path.clone(),
                                },
                            );
                        },
                    };
                    proof {
                        assert(envelope_from(reader, scene_path@, scene_value));
                    }
                    let scene_loader = match (factory)(&scene_value) {
                        Result::Ok(l) => l,
                        Result::Err(fault) => {
                            return Result::Err(
                                SceneStackLoaderError::SceneFactoryError {
                                    source: fault,
                                    scene_json: scene_value,
                                    path: scene_path.clone(),
                                },
                            );
                        },
                    };
                    let scene = match scene_loader.load_scene(&env) {
                        Result::Ok(s) => s,
                        Result::Err(fault) => {
                            let wrapped = SceneStackLoaderError::SceneLoadError {
                                source: fault,
                                path: scene_path.clone(),
                            };
                            proof {
                                assert(call_ensures(
                                    factory,
                                    (&scene_value,),
                                    Result::<L, SceneFault>::Ok(scene_loader),
                                ));
                                assert(exists|j: JSONLoad, built: L|
                                    #[trigger] envelope_from(reader, scene_path@, j)
                                        && #[trigger] call_ensures(
                                        factory,
                                        (&j,),
                                        Result::<L, SceneFault>::Ok(built),
                                    ));
                                assert(manifest_accepted(reader, path@));
                                assert(wrapped matches SceneStackLoaderError::SceneLoadError {
                                    source,
                                    path: failing,
                                } && failing@ == scene_path@);
                            }
                            return Result::Err(wrapped);
                        },
                    };
                    proof {
                        assert(call_ensures(
                            factory,
                            (&scene_value,),
                            Result::<L, SceneFault>::Ok(scene_loader),
                        ));
                        assert(scene_accepted::<L, G, R>(factory, reader, scene_path@));
                        assert(manifest_scene_paths(text@)[i as int] == scene_path@);
                    }
                    scene_vec.push(scene);
                    i += 1;
                }
                let stack = SceneStack::new(scene_vec);
                proof {
                    assert(load_succeeded_from::<L::Built, L, G, R>(
                        stack,
                        path@,
                        factory,
                        reader,
                        text,
                    ));
                    assert(load_succeeded::<L::Built, L, G, R>(stack, path@, factory, reader));
                }
                Result::Ok(stack)
            };
        Task::new(run)
    }
}


/// Law: a loading task built over a reader that cannot supply the
/// manifest — every answer it can give for the loader's path is a
/// failure — fails with `JSONDeserializeFromFileError` naming that
/// path, whose cause is a read failure the reader can indeed report.
///
/// `h` is the loading task's computation and `r` a result of running it
/// on `env`, as [`SceneStackLoader::load`]'s contract describes them.
pub proof fn lemma_unreadable_manifest<Sc, L, G, R, H, Env>(
    file: Seq<char>,
    factory: G,
    reader: R,
    h: H,
    env: Env,
    r: Result<SceneStack<Sc>, SceneStackLoaderError>,
) where
    G: Fn(&JSONLoad) -> Result<L, SceneFault>,
    R: Fn(&str) -> Result<String, ReadFault>,
    H: FnOnce(Env) -> Result<SceneStack<Sc>, SceneStackLoaderError>,

    requires
        forall|e2: Env, rr: Result<SceneStack<Sc>, SceneStackLoaderError>|
            call_ensures(h, (e2,), rr) ==> load_task_post(file, factory, reader, rr),
        call_ensures(h, (env,), r),
        forall|p: &str, out: Result<String, ReadFault>|
            p@ == file && #[trigger] call_ensures(reader, (p,), out) ==> out is Err,
    ensures
        r matches Err(e) && e matches SceneStackLoaderError::JSONDeserializeFromFileError {
            source,
            path,
        } && path@ == file && (source matches LoadError::ReadError { path: read_path, source: fault }
            && read_path@ == file && read_failed(reader, file, fault)),
{
    assert(load_task_post(file, factory, reader, r));
    assert forall|t: String| !read_ok(reader, file, t) by {
        if read_ok(reader, file, t) {
            let p = choose|p: &str|
                p@ == file && call_ensures(reader, (p,), Result::<String, ReadFault>::Ok(t));
            assert(call_ensures(reader, (p,), Result::<String, ReadFault>::Ok(t)));
        }
    }
    assert(!manifest_accepted(reader, file));
}


/// Law: a loading task cannot succeed past a scene it cannot have.
/// When every well-formed stack manifest the reader can supply for the
/// loader's path lists `scene_path`, and no envelope obtainable from
/// that path is one the factory accepts — the file is unreadable, its
/// text is no envelope, or the factory refuses whatever it holds — the
/// task's result is an error.
///
/// `h` is the loading task's computation and `r` a result of running it
/// on `env`, as [`SceneStackLoader::load`]'s contract describes them.
pub proof fn lemma_missing_scene_blocks_success<Sc, L, G, R, H, Env>(
    file: Seq<char>,
    factory: G,
    reader: R,
    h: H,
    env: Env,
    r: Result<SceneStack<Sc>, SceneStackLoaderError>,
    scene_path: Seq<char>,
) where
    G: Fn(&JSONLoad) -> Result<L, SceneFault>,
    R: Fn(&str) -> Result<String, ReadFault>,
    H: FnOnce(Env) -> Result<SceneStack<Sc>, SceneStackLoaderError>,

    requires
        forall|e2: Env, rr: Result<SceneStack<Sc>, SceneStackLoaderError>|
            call_ensures(h, (e2,), rr) ==> load_task_post(file, factory, reader, rr),
        call_ensures(h, (env,), r),
        forall|t: String|
            (#[trigger] read_ok(reader, file, t)) && stack_manifest_shaped(t@)
                ==> manifest_scene_paths(t@).contains(scene_path),
        !scene_accepted::<L, G, R>(factory, reader, scene_path),
    ensures
        r is Err,
{
    assert(load_task_post(file, factory, reader, r));
    if r is Ok {
        let stack = r->Ok_0;
        assert(load_succeeded::<Sc, L, G, R>(stack, file, factory, reader));
        let t = choose|t: String|
            #[trigger] load_succeeded_from::<Sc, L, G, R>(stack, file, factory, reader, t);
        assert(load_succeeded_from::<Sc, L, G, R>(stack, file, factory, reader, t));
        assert(manifest_scene_paths(t@).contains(scene_path));
        let k = choose|k: int|
            0 <= k < manifest_scene_paths(t@).len() && manifest_scene_paths(t@)[k] == scene_path;
        assert(scene_accepted::<L, G, R>(factory, reader, manifest_scene_paths(t@)[k]));
    }
}

} // verus!
