//! Commands that the user interface sends to the application, and what the
//! application does for each of them.

use vstd::prelude::*;

verus! {

/// `std::path::PathBuf`, carried through as an opaque value.
#[verifier::external_type_specification]
#[verifier::external_body]
pub struct ExPathBuf(std::path::PathBuf);

/// `std::sync::mpsc::Receiver`, carried through as an opaque value.
#[verifier::external_type_specification]
#[verifier::external_body]
#[verifier::reject_recursive_types(T)]
pub struct ExReceiver<T>(std::sync::mpsc::Receiver<T>);

/// Identifies a model of the scene.
pub type ModelId = usize;

/// A request from the user interface.
pub enum Command {
    /// Replace the scene by the one in the file.
    LoadScene(std::path::PathBuf),
    /// Add the models of the file to the scene.
    ImportModel(std::path::PathBuf),
    /// Remove a model from the scene.
    DeleteModel(ModelId),
    /// Add the image in the file to the texture registry.
    ImportTexture(std::path::PathBuf),
    /// Rebuild every pipeline from the shaders on disk.
    ReloadShaders,
}

/// One thing the application does on behalf of a command.
pub enum AppAction {
    /// Wait until the device is idle.
    WaitIdle,
    /// Reset the command buffer of every frame in flight.
    ResetFrameCommandBuffers,
    /// Destroy every model of the scene.
    ClearWorld,
    /// Read the file and add its models, in one submission.
    LoadGltf(std::path::PathBuf),
    /// Remove the model from the scene.
    RemoveModel(ModelId),
    /// Decode the file and add it to the texture registry, in one submission.
    ImportTexture(std::path::PathBuf),
    /// Flush the pipelines' deletion queue and build the pipelines anew.
    RecreatePipelines,
}

/// What the application does for `command`, in order.
///
/// Whatever takes resources away that frames in flight may use waits for the
/// device first and resets the frames' command buffers.
pub open spec fn planned(command: Command) -> Seq<AppAction> {
    match command {
        Command::LoadScene(path) => seq![
            AppAction::WaitIdle,
            AppAction::ResetFrameCommandBuffers,
            AppAction::ClearWorld,
            AppAction::LoadGltf(path),
        ],
        Command::ImportModel(path) => seq![AppAction::LoadGltf(path)],
        Command::DeleteModel(id) => seq![
            AppAction::WaitIdle,
            AppAction::ResetFrameCommandBuffers,
            AppAction::RemoveModel(id),
        ],
        Command::ImportTexture(path) => seq![AppAction::ImportTexture(path)],
        Command::ReloadShaders => seq![AppAction::RecreatePipelines],
    }
}

/// What the application does for `command`, in order.
pub fn plan(command: Command) -> (actions: Vec<AppAction>)
    ensures
        actions@ == planned(command),
{
    let mut actions: Vec<AppAction> = Vec::new();
    match command {
        Command::LoadScene(path) => {
            actions.push(AppAction::WaitIdle);
            actions.push(AppAction::ResetFrameCommandBuffers);
            actions.push(AppAction::ClearWorld);
            actions.push(AppAction::LoadGltf(path));
        },
        Command::ImportModel(path) => {
            actions.push(AppAction::LoadGltf(path));
        },
        Command::DeleteModel(id) => {
            actions.push(AppAction::WaitIdle);
            actions.push(AppAction::ResetFrameCommandBuffers);
            actions.push(AppAction::RemoveModel(id));
        },
        Command::ImportTexture(path) => {
            actions.push(AppAction::ImportTexture(path));
        },
        Command::ReloadShaders => {
            actions.push(AppAction::RecreatePipelines);
        },
    }
    actions
}

/// Calls `std::sync::mpsc::Receiver::try_recv` and drops the reason why
/// nothing came. What comes depends on the senders, so nothing is claimed of
/// the result.
#[verifier::external_body]
fn try_receive(receiver: &std::sync::mpsc::Receiver<Command>) -> (command: Option<Command>) {
    receiver.try_recv().ok()
}

/// The receiving end of the command channel.
pub struct CommandHandler {
    receiver: std::sync::mpsc::Receiver<Command>,
}

impl CommandHandler {
    /// The channel end the handler takes commands from.
    pub closed spec fn receiver(self) -> std::sync::mpsc::Receiver<Command> {
        self.receiver
    }

    /// A handler that takes commands from `receiver`.
    pub fn new(receiver: std::sync::mpsc::Receiver<Command>) -> (handler: Self)
        ensures
            handler.receiver() == receiver,
    {
        Self { receiver }
    }

    /// Takes the next command that waits in the channel, if there is one,
    /// and says what the application does for it. The application performs
    /// the actions and asks again until no command waits.
    pub fn handle_command(&self) -> (actions: Option<Vec<AppAction>>)
        ensures
            actions matches Some(list) ==> exists|command: Command| list@ == planned(command),
    {
        actions_for(try_receive(&self.receiver))
    }
}

/// What the application does for what the channel gave: the plan of the
/// command that came, and nothing if none came.
pub open spec fn answered(received: Option<Command>) -> Option<Seq<AppAction>> {
    match received {
        Some(command) => Some(planned(command)),
        None => None,
    }
}

/// What the application does for what the channel gave: the plan of the
/// command that came, and nothing if none came.
pub fn actions_for(received: Option<Command>) -> (actions: Option<Vec<AppAction>>)
    ensures
        match actions {
            Some(list) => answered(received) == Some(list@),
            None => received is None,
        },
{
    match received {
        Some(command) => Some(plan(command)),
        None => None,
    }
}

} // verus!
