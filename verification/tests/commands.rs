use gpu_resources::commands::{actions_for, plan, AppAction, Command, CommandHandler};
use std::path::PathBuf;
use std::sync::mpsc;

fn names(actions: &[AppAction]) -> Vec<String> {
    actions
        .iter()
        .map(|action| match action {
            AppAction::WaitIdle => "wait".to_string(),
            AppAction::ResetFrameCommandBuffers => "reset".to_string(),
            AppAction::ClearWorld => "clear".to_string(),
            AppAction::LoadGltf(path) => format!("gltf {}", path.display()),
            AppAction::RemoveModel(id) => format!("remove {}", id),
            AppAction::ImportTexture(path) => format!("texture {}", path.display()),
            AppAction::RecreatePipelines => "pipelines".to_string(),
        })
        .collect()
}

#[test]
fn load_scene_waits_resets_clears_and_loads() {
    let actions = plan(Command::LoadScene(PathBuf::from("a.gltf")));
    assert_eq!(names(&actions), vec!["wait", "reset", "clear", "gltf a.gltf"]);
}

#[test]
fn import_model_only_loads() {
    let actions = plan(Command::ImportModel(PathBuf::from("b.glb")));
    assert_eq!(names(&actions), vec!["gltf b.glb"]);
}

#[test]
fn delete_model_waits_and_resets_before_it_removes() {
    let actions = plan(Command::DeleteModel(7));
    assert_eq!(names(&actions), vec!["wait", "reset", "remove 7"]);
}

#[test]
fn import_texture_and_reload_shaders_are_single_actions() {
    assert_eq!(
        names(&plan(Command::ImportTexture(PathBuf::from("c.png")))),
        vec!["texture c.png"]
    );
    assert_eq!(names(&plan(Command::ReloadShaders)), vec!["pipelines"]);
}

#[test]
fn handler_takes_commands_from_the_channel_in_order() {
    let (sender, receiver) = mpsc::channel();
    let handler = CommandHandler::new(receiver);
    assert!(handler.handle_command().is_none());
    sender.send(Command::DeleteModel(3)).unwrap();
    sender.send(Command::ReloadShaders).unwrap();
    assert_eq!(names(&handler.handle_command().unwrap()), vec!["wait", "reset", "remove 3"]);
    assert_eq!(names(&handler.handle_command().unwrap()), vec!["pipelines"]);
    assert!(handler.handle_command().is_none());
    drop(sender);
    assert!(handler.handle_command().is_none());
}

#[test]
fn a_command_that_came_is_planned_and_none_gives_nothing() {
    assert!(actions_for(None).is_none());
    let actions = actions_for(Some(Command::DeleteModel(4))).unwrap();
    assert_eq!(names(&actions), vec!["wait", "reset", "remove 4"]);
    let actions = actions_for(Some(Command::ReloadShaders)).unwrap();
    assert_eq!(names(&actions), vec!["pipelines"]);
}
