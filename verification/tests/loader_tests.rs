use std::cell::Cell;
use std::rc::Rc;

use scene_core::globals::dict_entries_from_value;
use scene_core::load::{check_load_id, load_json_from_str, JSONLoad, LoadError, ReadFault};
use scene_core::scenes::scene_stack::{
    SceneStack, SceneStackLoader, SceneStackLoaderError, SceneTransition,
};
use scene_core::scenes::{Scene, SceneFault, SceneLoader};

#[test]
fn envelope_text_parses_into_id_and_payload() {
    let envelope = load_json_from_str(
        "{\"load_type_id\": \"scene_stack\", \"actual_value\": {\"scene_paths\": []}}",
    )
    .unwrap();
    assert_eq!(envelope.load_type_id, "scene_stack");
    assert!(envelope.actual_value.get("scene_paths").is_some());
}

#[test]
fn envelope_text_that_is_not_json_is_reported_with_the_text() {
    match load_json_from_str("not json at all") {
        Err(LoadError::ValueConversionError { string_value, source: _ }) => {
            assert_eq!(string_value, "not json at all");
        }
        _ => panic!("expected a value conversion error"),
    }
}

#[test]
fn json_without_envelope_fields_is_not_an_envelope() {
    assert!(matches!(
        load_json_from_str("{\"something\": 3}"),
        Err(LoadError::JSONLoadConversionError { .. })
    ));
    assert!(matches!(
        load_json_from_str("{\"load_type_id\": 7, \"actual_value\": {}}"),
        Err(LoadError::JSONLoadConversionError { .. })
    ));
    assert!(matches!(
        load_json_from_str("{\"load_type_id\": \"x\"}"),
        Err(LoadError::JSONLoadConversionError { .. })
    ));
}

#[test]
fn load_id_check_accepts_the_declared_id_only() {
    let envelope = load_json_from_str(
        "{\"load_type_id\": \"scene_stack\", \"actual_value\": {}}",
    )
    .unwrap();
    assert!(check_load_id(&envelope, "scene_stack").is_ok());
    match check_load_id(&envelope, "entity_loader") {
        Err(LoadError::LoadIDError { actual, expected }) => {
            assert_eq!(actual, "scene_stack");
            assert_eq!(expected, "entity_loader");
        }
        _ => panic!("expected a load id error"),
    }
}

#[test]
fn dict_manifest_payload_yields_name_path_pairs() {
    let payload: serde_json::Value =
        serde_json::from_str("{\"fonts\": {\"title\": \"fonts/title.ttf\"}}").unwrap();
    let entries = dict_entries_from_value(&payload, "fonts").unwrap();
    assert_eq!(entries, vec![("title".to_string(), "fonts/title.ttf".to_string())]);
}

#[test]
fn dict_manifest_payload_of_the_wrong_shape_is_rejected() {
    let payload: serde_json::Value =
        serde_json::from_str("{\"fonts\": [\"not\", \"a\", \"map\"]}").unwrap();
    assert!(matches!(
        dict_entries_from_value(&payload, "fonts"),
        Err(LoadError::DeserializationError { .. })
    ));
    let missing: serde_json::Value = serde_json::from_str("{}").unwrap();
    assert!(matches!(
        dict_entries_from_value(&missing, "fonts"),
        Err(LoadError::DeserializationError { .. })
    ));
    let bad_path: serde_json::Value =
        serde_json::from_str("{\"fonts\": {\"title\": 9}}").unwrap();
    assert!(matches!(
        dict_entries_from_value(&bad_path, "fonts"),
        Err(LoadError::DeserializationError { .. })
    ));
}

/// A scene built from a manifest in these tests.
struct ScriptScene {
    name: String,
}

impl Scene for ScriptScene {
    type Env = u64;
    type Input = u64;

    fn update(&mut self, _env: &u64) -> Result<SceneTransition<ScriptScene>, SceneFault> {
        Ok(SceneTransition::NONE)
    }

    fn draw(&mut self, _env: &u64) -> Result<(), SceneFault> {
        Ok(())
    }

    fn interact(&mut self, _env: &u64, _input: &u64) -> Result<(), SceneFault> {
        Ok(())
    }

    fn is_finished(&self, _env: &u64) -> Result<bool, SceneFault> {
        Ok(false)
    }

    fn get_name(&self) -> String {
        self.name.clone()
    }
}

/// Builds one scripted scene, counting how often construction ran.
struct ScriptSceneLoader {
    name: String,
    built: Rc<Cell<u32>>,
}

impl SceneLoader for ScriptSceneLoader {
    type Built = ScriptScene;

    fn load_scene(&self, _env: &u64) -> Result<ScriptScene, SceneFault> {
        self.built.set(self.built.get() + 1);
        Ok(ScriptScene { name: self.name.clone() })
    }
}

fn manifest_text() -> String {
    "{\"load_type_id\": \"scene_stack\", \"actual_value\": \
     {\"scene_paths\": [\"menu.json\", \"game.json\"]}}"
        .to_string()
}

fn scene_text(id: &str, name: &str) -> String {
    format!(
        "{{\"load_type_id\": \"{}\", \"actual_value\": {{\"name\": \"{}\"}}}}",
        id, name
    )
}

fn reader_for(stack_text: String, menu_text: String, game_text: String)
    -> impl Fn(&str) -> Result<String, ReadFault> {
    move |path: &str| match path {
        "stack.json" => Ok(stack_text.clone()),
        "menu.json" => Ok(menu_text.clone()),
        "game.json" => Ok(game_text.clone()),
        other => Err(ReadFault { message: format!("no such file: {}", other) }),
    }
}

fn factory_counting(built: Rc<Cell<u32>>)
    -> impl Fn(&JSONLoad) -> Result<ScriptSceneLoader, SceneFault> {
    move |envelope: &JSONLoad| {
        if envelope.load_type_id != "script" {
            return Err(SceneFault {
                message: format!("unknown scene kind: {}", envelope.load_type_id),
            });
        }
        let name = envelope
            .actual_value
            .get("name")
            .and_then(|v| v.as_str())
            .unwrap_or("nameless")
            .to_string();
        Ok(ScriptSceneLoader { name, built: Rc::clone(&built) })
    }
}

#[test]
fn loader_builds_the_stack_in_manifest_order() {
    let built = Rc::new(Cell::new(0));
    let loader = SceneStackLoader::new("stack.json".to_string(), factory_counting(built.clone()));
    let task = loader.load(reader_for(
        manifest_text(),
        scene_text("script", "Menu"),
        scene_text("script", "Game"),
    ));
    let stack: SceneStack<ScriptScene> = task.execute(1).unwrap();
    let names: Vec<String> = stack.stack.iter().map(|s| s.get_name()).collect();
    assert_eq!(names, vec!["Menu".to_string(), "Game".to_string()]);
    assert_eq!(built.get(), 2);
}

#[test]
fn loader_reports_an_unreadable_manifest_with_its_path() {
    let built = Rc::new(Cell::new(0));
    let loader = SceneStackLoader::new("missing.json".to_string(), factory_counting(built));
    let task = loader.load(reader_for(
        manifest_text(),
        scene_text("script", "Menu"),
        scene_text("script", "Game"),
    ));
    match task.execute(1) {
        Err(SceneStackLoaderError::JSONDeserializeFromFileError { source, path }) => {
            assert_eq!(path, "missing.json");
            assert!(matches!(source, LoadError::ReadError { .. }));
        }
        _ => panic!("expected a manifest error"),
    }
}

#[test]
fn loader_rejects_a_manifest_with_the_wrong_type_id() {
    let built = Rc::new(Cell::new(0));
    let loader = SceneStackLoader::new("stack.json".to_string(), factory_counting(built));
    let wrong = "{\"load_type_id\": \"entity_loader\", \"actual_value\": {\"scene_paths\": []}}";
    let task = loader.load(reader_for(
        wrong.to_string(),
        scene_text("script", "Menu"),
        scene_text("script", "Game"),
    ));
    match task.execute(1) {
        Err(SceneStackLoaderError::JSONDeserializeFromFileError { source, path }) => {
            assert_eq!(path, "stack.json");
            assert!(matches!(source, LoadError::LoadIDError { .. }));
        }
        _ => panic!("expected a manifest error"),
    }
}

#[test]
fn loader_failing_on_the_second_scene_names_its_path_and_keeps_first_effects() {
    let built = Rc::new(Cell::new(0));
    let loader = SceneStackLoader::new("stack.json".to_string(), factory_counting(built.clone()));
    // The second scene declares a kind the factory does not know.
    let task = loader.load(reader_for(
        manifest_text(),
        scene_text("script", "Menu"),
        scene_text("mystery", "Game"),
    ));
    match task.execute(1) {
        Err(SceneStackLoaderError::SceneFactoryError { source, scene_json, path }) => {
            assert_eq!(path, "game.json");
            assert_eq!(scene_json.load_type_id, "mystery");
            assert!(source.message.contains("mystery"));
        }
        _ => panic!("expected a factory error"),
    }
    // The first scene was already built; construction is not transactional.
    assert_eq!(built.get(), 1);
}

#[test]
fn loader_reports_a_failing_scene_construction() {
    struct FailingLoader;
    struct NeverScene;

    impl Scene for NeverScene {
        type Env = u64;
        type Input = u64;

        fn update(&mut self, _env: &u64) -> Result<SceneTransition<NeverScene>, SceneFault> {
            Ok(SceneTransition::NONE)
        }

        fn draw(&mut self, _env: &u64) -> Result<(), SceneFault> {
            Ok(())
        }

        fn interact(&mut self, _env: &u64, _input: &u64) -> Result<(), SceneFault> {
            Ok(())
        }

        fn is_finished(&self, _env: &u64) -> Result<bool, SceneFault> {
            Ok(false)
        }

        fn get_name(&self) -> String {
            "never".to_string()
        }
    }

    impl SceneLoader for FailingLoader {
        type Built = NeverScene;

        fn load_scene(&self, _env: &u64) -> Result<NeverScene, SceneFault> {
            Err(SceneFault { message: "construction broke".to_string() })
        }
    }

    let factory = |_envelope: &JSONLoad| -> Result<FailingLoader, SceneFault> { Ok(FailingLoader) };
    let loader = SceneStackLoader::new("stack.json".to_string(), factory);
    let task = loader.load(reader_for(
        manifest_text(),
        scene_text("script", "Menu"),
        scene_text("script", "Game"),
    ));
    match task.execute(1) {
        Err(SceneStackLoaderError::SceneLoadError { source, path }) => {
            assert_eq!(source.message, "construction broke");
            assert_eq!(path, "menu.json");
        }
        _ => panic!("expected a scene construction error"),
    }
}

#[test]
fn loader_reports_a_manifest_that_is_not_json() {
    let built = Rc::new(Cell::new(0));
    let loader = SceneStackLoader::new("stack.json".to_string(), factory_counting(built));
    let task = loader.load(reader_for(
        "{ this is not json".to_string(),
        scene_text("script", "Menu"),
        scene_text("script", "Game"),
    ));
    match task.execute(1) {
        Err(SceneStackLoaderError::JSONDeserializeFromFileError { source, path }) => {
            assert_eq!(path, "stack.json");
            match source {
                LoadError::ValueConversionError { string_value, source: _ } => {
                    assert_eq!(string_value, "{ this is not json");
                }
                _ => panic!("expected a value conversion error"),
            }
        }
        _ => panic!("expected a manifest error"),
    }
}

#[test]
fn loader_reports_a_scene_file_that_is_not_json() {
    let built = Rc::new(Cell::new(0));
    let loader = SceneStackLoader::new("stack.json".to_string(), factory_counting(built));
    let task = loader.load(reader_for(
        manifest_text(),
        "not an envelope at all".to_string(),
        scene_text("script", "Game"),
    ));
    match task.execute(1) {
        Err(SceneStackLoaderError::JSONLoadFromFileError { source, path }) => {
            assert_eq!(path, "menu.json");
            assert!(matches!(source, LoadError::ValueConversionError { .. }));
        }
        _ => panic!("expected a scene file error"),
    }
}

#[test]
fn loader_reports_an_unreadable_scene_file_with_its_path() {
    let built = Rc::new(Cell::new(0));
    let loader = SceneStackLoader::new("stack.json".to_string(), factory_counting(built));
    let stack_text = "{\"load_type_id\": \"scene_stack\", \"actual_value\": \
                      {\"scene_paths\": [\"menu.json\", \"absent.json\"]}}";
    let task = loader.load(reader_for(
        stack_text.to_string(),
        scene_text("script", "Menu"),
        scene_text("script", "Game"),
    ));
    match task.execute(1) {
        Err(SceneStackLoaderError::JSONLoadFromFileError { source, path }) => {
            assert_eq!(path, "absent.json");
            assert!(matches!(source, LoadError::ReadError { .. }));
        }
        _ => panic!("expected a scene file error"),
    }
}

#[test]
fn loader_rejects_a_manifest_without_a_path_list() {
    let built = Rc::new(Cell::new(0));
    let loader = SceneStackLoader::new("stack.json".to_string(), factory_counting(built));
    let no_paths = "{\"load_type_id\": \"scene_stack\", \"actual_value\": {\"paths\": []}}";
    let task = loader.load(reader_for(
        no_paths.to_string(),
        scene_text("script", "Menu"),
        scene_text("script", "Game"),
    ));
    match task.execute(1) {
        Err(SceneStackLoaderError::JSONDeserializeFromFileError { source, path }) => {
            assert_eq!(path, "stack.json");
            assert!(matches!(source, LoadError::DeserializationError { .. }));
        }
        _ => panic!("expected a manifest error"),
    }
}

#[test]
fn entity_manifest_payload_yields_component_paths_in_order() {
    let payload: serde_json::Value = serde_json::from_str(
        "{\"component_paths\": [\"position.json\", \"sprite.json\"]}",
    )
    .unwrap();
    let paths = scene_core::entities::component_paths_from_value(&payload).unwrap();
    assert_eq!(paths, vec!["position.json".to_string(), "sprite.json".to_string()]);
}

#[test]
fn string_list_of_the_wrong_shape_is_rejected() {
    let payload: serde_json::Value =
        serde_json::from_str("{\"component_paths\": [\"ok.json\", 5]}").unwrap();
    assert!(matches!(
        scene_core::entities::component_paths_from_value(&payload),
        Err(LoadError::DeserializationError { .. })
    ));
    let not_a_list: serde_json::Value =
        serde_json::from_str("{\"component_paths\": \"alone.json\"}").unwrap();
    assert!(matches!(
        scene_core::load::string_list_from_value(&not_a_list, "component_paths"),
        Err(LoadError::DeserializationError { .. })
    ));
}

#[test]
fn loader_accepts_an_empty_manifest_and_builds_an_empty_stack() {
    let built = Rc::new(Cell::new(0));
    let loader = SceneStackLoader::new("stack.json".to_string(), factory_counting(built.clone()));
    let empty = "{\"load_type_id\": \"scene_stack\", \"actual_value\": {\"scene_paths\": []}}";
    let task = loader.load(reader_for(
        empty.to_string(),
        scene_text("script", "Menu"),
        scene_text("script", "Game"),
    ));
    let stack: SceneStack<ScriptScene> = task.execute(1).unwrap();
    assert_eq!(stack.depth(), 0);
    assert_eq!(built.get(), 0);
}

#[test]
fn loader_stops_reading_after_the_first_failing_scene() {
    let built = Rc::new(Cell::new(0));
    let later_reads = Rc::new(Cell::new(0));
    let later = Rc::clone(&later_reads);
    let stack_text = manifest_text();
    let reader = move |path: &str| match path {
        "stack.json" => Ok(stack_text.clone()),
        "menu.json" => Err(ReadFault { message: "gone".to_string() }),
        other => {
            later.set(later.get() + 1);
            Ok(scene_text("script", other))
        }
    };
    let loader = SceneStackLoader::new("stack.json".to_string(), factory_counting(built.clone()));
    let task = loader.load(reader);
    match task.execute(1) {
        Err(SceneStackLoaderError::JSONLoadFromFileError { source: _, path }) => {
            assert_eq!(path, "menu.json");
        }
        _ => panic!("expected a scene file error"),
    }
    assert_eq!(later_reads.get(), 0, "no path after the failing scene may be read");
    assert_eq!(built.get(), 0);
}
