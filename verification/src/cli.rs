//! The commands of the key manager, as a machine that decides and asks.
//!
//! A command runs as an `Execution`: it starts by asking whether the home
//! directory exists, and each later `step` takes the answer (an `Event`) to
//! the last request and returns the next request (an `Action`): look at the
//! disk, change it, run a program, print, ask the user, or finish with the
//! command's result.  Whoever drives the machine performs the actions.

use vstd::prelude::*;
use crate::config::{keys_dir_of, RskmSettings, SettingsView};
use crate::errors::{ErrorView, RskmError};
use crate::keys::key_types::{key_type_named, KeyTypes};
use crate::listing::{list_keys, listing_output, listing_text, sorted_key_names, string_views};
use crate::paths::{join, path_join, public_key_path, public_key_path_of};
use crate::text::{
    concat3, concat5, str_eq, str_to_lowercase, str_trim, to_lowercase, trim,
};

verus! {

/// A command, with its arguments.
#[derive(Debug)]
pub enum Commands {
    Init,
    Create { key_name: String, key_type: Option<String> },
    Rename { key_name: String, new_name: String },
    Delete { key_name: String },
    List,
    Show { key_name: String },
    Add { key_name: String },
    Remove { key_name: String },
    Destroy { yes: bool },
}

/// A command with its strings taken as character sequences.
pub enum CommandView {
    Init,
    Create { key_name: Seq<char>, key_type: Option<Seq<char>> },
    Rename { key_name: Seq<char>, new_name: Seq<char> },
    Delete { key_name: Seq<char> },
    List,
    Show { key_name: Seq<char> },
    Add { key_name: Seq<char> },
    Remove { key_name: Seq<char> },
    Destroy { yes: bool },
}

impl View for Commands {
    type V = CommandView;

    open spec fn view(&self) -> CommandView {
        match self {
            Commands::Init => CommandView::Init,
            Commands::Create { key_name, key_type } => CommandView::Create {
                key_name: key_name@,
                key_type: match key_type {
                    Some(t) => Some(t@),
                    None => None,
                },
            },
            Commands::Rename { key_name, new_name } => CommandView::Rename {
                key_name: key_name@,
                new_name: new_name@,
            },
            Commands::Delete { key_name } => CommandView::Delete { key_name: key_name@ },
            Commands::List => CommandView::List,
            Commands::Show { key_name } => CommandView::Show { key_name: key_name@ },
            Commands::Add { key_name } => CommandView::Add { key_name: key_name@ },
            Commands::Remove { key_name } => CommandView::Remove { key_name: key_name@ },
            Commands::Destroy { yes } => CommandView::Destroy { yes: *yes },
        }
    }
}

/// A request to whoever drives the machine.
#[derive(Debug)]
pub enum Action {
    /// Tell whether the path exists: answered by `Exists`.
    CheckExists(String),
    /// Create the directory and its missing parents: `Done` or `Failed`.
    CreateDirAll(String),
    /// Serialize the settings as TOML: `Serialized` or `SerializeFailed`.
    SerializeSettings,
    /// Write the file with these contents: `Done` or `Failed`.
    WriteFile { path: String, contents: String },
    /// Run the program with these arguments, with its standard output
    /// discarded or not: `Exited` or `SpawnFailed`.
    Run { program: String, args: Vec<String>, discard_output: bool },
    /// Rename a file: `Done` or `Failed`.
    RenameFile { from: String, to: String },
    /// Remove a file: `Done` or `Failed`.
    RemoveFile(String),
    /// Give the names of the entries of the directory that could be read:
    /// `Listing` or `Failed`.
    ListDir(String),
    /// Read the file as text: `Contents` or `Failed`.
    ReadFile(String),
    /// Show the text and read a line from the user: `Answer`.
    Prompt(String),
    /// Remove the directory with all it holds: `Done` or `Failed`.
    RemoveDirAll(String),
    /// Print the text as it is: `Done`.
    Print(String),
    /// The command is over, with this result.
    Finish(Result<(), RskmError>),
}

/// A request with its strings taken as character sequences.
pub enum ActionView {
    CheckExists(Seq<char>),
    CreateDirAll(Seq<char>),
    SerializeSettings,
    WriteFile { path: Seq<char>, contents: Seq<char> },
    Run { program: Seq<char>, args: Seq<Seq<char>>, discard_output: bool },
    RenameFile { from: Seq<char>, to: Seq<char> },
    RemoveFile(Seq<char>),
    ListDir(Seq<char>),
    ReadFile(Seq<char>),
    Prompt(Seq<char>),
    RemoveDirAll(Seq<char>),
    Print(Seq<char>),
    Finish(Result<(), ErrorView>),
}

impl View for Action {
    type V = ActionView;

    open spec fn view(&self) -> ActionView {
        match self {
            Action::CheckExists(p) => ActionView::CheckExists(p@),
            Action::CreateDirAll(p) => ActionView::CreateDirAll(p@),
            Action::SerializeSettings => ActionView::SerializeSettings,
            Action::WriteFile { path, contents } => ActionView::WriteFile {
                path: path@,
                contents: contents@,
            },
            Action::Run { program, args, discard_output } => ActionView::Run {
                program: program@,
                args: string_views(args@),
                discard_output: *discard_output,
            },
            Action::RenameFile { from, to } => ActionView::RenameFile { from: from@, to: to@ },
            Action::RemoveFile(p) => ActionView::RemoveFile(p@),
            Action::ListDir(p) => ActionView::ListDir(p@),
            Action::ReadFile(p) => ActionView::ReadFile(p@),
            Action::Prompt(t) => ActionView::Prompt(t@),
            Action::RemoveDirAll(p) => ActionView::RemoveDirAll(p@),
            Action::Print(t) => ActionView::Print(t@),
            Action::Finish(r) => ActionView::Finish(
                match r {
                    Ok(()) => Ok(()),
                    Err(e) => Err(e@),
                },
            ),
        }
    }
}

/// The answer to a request.
#[derive(Debug)]
pub enum Event {
    /// Whether the path asked about exists.
    Exists(bool),
    /// The change or the printing was done.
    Done,
    /// The change, reading or listing failed with this error.
    Failed(std::io::Error),
    /// The settings in TOML.
    Serialized(String),
    /// Serializing the settings failed with this message.
    SerializeFailed(String),
    /// The names of the directory's entries.
    Listing(Vec<String>),
    /// The text of the file.
    Contents(String),
    /// The program ran and exited, successfully or not.
    Exited(bool),
    /// The program could not be started.
    SpawnFailed,
    /// The line the user typed.
    Answer(String),
}

/// An answer with its strings taken as character sequences.
pub enum EventView {
    Exists(bool),
    Done,
    Failed(std::io::Error),
    Serialized(Seq<char>),
    SerializeFailed(Seq<char>),
    Listing(Seq<Seq<char>>),
    Contents(Seq<char>),
    Exited(bool),
    SpawnFailed,
    Answer(Seq<char>),
}

impl View for Event {
    type V = EventView;

    open spec fn view(&self) -> EventView {
        match self {
            Event::Exists(b) => EventView::Exists(*b),
            Event::Done => EventView::Done,
            Event::Failed(e) => EventView::Failed(*e),
            Event::Serialized(t) => EventView::Serialized(t@),
            Event::SerializeFailed(m) => EventView::SerializeFailed(m@),
            Event::Listing(names) => EventView::Listing(string_views(names@)),
            Event::Contents(t) => EventView::Contents(t@),
            Event::Exited(ok) => EventView::Exited(*ok),
            Event::SpawnFailed => EventView::SpawnFailed,
            Event::Answer(a) => EventView::Answer(a@),
        }
    }
}

/// Where a command stands: which answer it waits for.
#[derive(Debug, Clone, Copy, PartialEq, Eq, Structural)]
pub enum Stage {
    ProbeHome,
    ProbeKeysDir,
    InitCreateDirs,
    InitSerialize,
    InitWrite,
    CreateProbeKey,
    CreateKeygen,
    RenameProbeKey,
    RenameKey,
    RenameProbePub,
    RenamePub,
    DeleteProbeKey,
    DeleteKey,
    DeleteProbePub,
    DeletePub,
    ListRead,
    ShowProbePub,
    ShowRead,
    AgentProbeKey,
    AgentRun,
    DestroyPrompt,
    DestroyRemove,
    Report,
    Finished,
}

/// Whether `stage` is one that command `c` can be at: the probes of the home
/// and the final report belong to every command, the other stages to one.
pub open spec fn stage_fits(c: CommandView, stage: Stage) -> bool {
    match stage {
        Stage::ProbeHome | Stage::ProbeKeysDir | Stage::Report | Stage::Finished => true,
        Stage::InitCreateDirs | Stage::InitSerialize | Stage::InitWrite => c is Init,
        Stage::CreateProbeKey | Stage::CreateKeygen => c is Create,
        Stage::RenameProbeKey | Stage::RenameKey | Stage::RenameProbePub | Stage::RenamePub => c is Rename,
        Stage::DeleteProbeKey | Stage::DeleteKey | Stage::DeleteProbePub | Stage::DeletePub => c is Delete,
        Stage::ListRead => c is List,
        Stage::ShowProbePub | Stage::ShowRead => c is Show,
        Stage::AgentProbeKey | Stage::AgentRun => c is Add || c is Remove,
        Stage::DestroyPrompt | Stage::DestroyRemove => c is Destroy,
    }
}

/// A step leads from a stage of the command to a stage of the command.
pub proof fn lemma_step_keeps_stage_fit(e: ExecutionView, ev: EventView)
    requires
        stage_fits(e.command, e.stage),
    ensures
        stage_fits(e.command, next_step(e, ev).0),
{
}

/// Whether `ev` is an answer that a command at `stage` waits for.
pub open spec fn accepts(stage: Stage, ev: EventView) -> bool {
    match stage {
        Stage::ProbeHome | Stage::ProbeKeysDir | Stage::CreateProbeKey | Stage::RenameProbeKey
        | Stage::RenameProbePub | Stage::DeleteProbeKey | Stage::DeleteProbePub
        | Stage::ShowProbePub | Stage::AgentProbeKey => ev is Exists,
        Stage::InitCreateDirs | Stage::InitWrite | Stage::RenameKey | Stage::RenamePub
        | Stage::DeleteKey | Stage::DeletePub | Stage::DestroyRemove => ev is Done || ev is Failed,
        Stage::InitSerialize => ev is Serialized || ev is SerializeFailed,
        Stage::CreateKeygen | Stage::AgentRun => ev is Exited || ev is SpawnFailed,
        Stage::ListRead => ev is Listing || ev is Failed,
        Stage::ShowRead => ev is Contents || ev is Failed,
        Stage::DestroyPrompt => ev is Answer,
        Stage::Report => ev is Done,
        Stage::Finished => false,
    }
}

/// Whether `ev` answers the request `a`, as the requests' documentation
/// says.
pub open spec fn answers(a: ActionView, ev: EventView) -> bool {
    match a {
        ActionView::CheckExists(_) => ev is Exists,
        ActionView::CreateDirAll(_) | ActionView::WriteFile { .. } | ActionView::RenameFile { .. }
        | ActionView::RemoveFile(_) | ActionView::RemoveDirAll(_) => ev is Done || ev is Failed,
        ActionView::SerializeSettings => ev is Serialized || ev is SerializeFailed,
        ActionView::Run { .. } => ev is Exited || ev is SpawnFailed,
        ActionView::ListDir(_) => ev is Listing || ev is Failed,
        ActionView::ReadFile(_) => ev is Contents || ev is Failed,
        ActionView::Prompt(_) => ev is Answer,
        ActionView::Print(_) => ev is Done,
        ActionView::Finish(_) => false,
    }
}

/// A running command as plain values.
pub struct ExecutionView {
    pub command: CommandView,
    pub settings: SettingsView,
    pub stage: Stage,
}

/// The path of the private key `name`: `name` in the keys directory.
pub open spec fn key_path_of(s: SettingsView, name: Seq<char>) -> Seq<char> {
    path_join(keys_dir_of(s), name)
}

/// The path of the public key that goes with the private key at `path`:
/// `path` with `.pub` appended, where `ssh-keygen` writes it.
pub open spec fn pub_path_of(path: Seq<char>) -> Seq<char> {
    public_key_path_of(path)
}

/// The key type that `create` uses: the one given, else the default one.
pub open spec fn chosen_key_type(given: Option<Seq<char>>, s: SettingsView) -> Seq<char> {
    match given {
        Some(t) => t,
        None => s.default_key_type,
    }
}

/// Whether the user's answer agrees to destroying the home: trimmed and in
/// lower case it is `y`.
pub open spec fn is_confirmation(answer: Seq<char>) -> bool {
    str_to_lowercase(str_trim(answer)) == "y"@
}

/// The question asked before the home is destroyed.
pub open spec fn destroy_question() -> Seq<char> {
    "Do you really want to delete RSKM_HOME? This cannot be undone! [y/N] "@
}

/// The `ssh-keygen` call that creates a key of type `key_type` at `path`,
/// without a passphrase.
pub open spec fn keygen_run(key_type: Seq<char>, path: Seq<char>) -> ActionView {
    ActionView::Run {
        program: "ssh-keygen"@,
        args: seq!["-t"@, key_type, "-f"@, path, "-N"@, ""@],
        discard_output: true,
    }
}

/// The `ssh-add` call that adds the key at `path` to the agent, or removes
/// it from the agent.
pub open spec fn agent_run(adding: bool, path: Seq<char>) -> ActionView {
    ActionView::Run {
        program: "ssh-add"@,
        args: if adding {
            seq![path]
        } else {
            seq!["-d"@, path]
        },
        discard_output: false,
    }
}

/// Go to `stage` with the request `a`.
pub open spec fn goto(stage: Stage, a: ActionView) -> (Stage, ActionView) {
    (stage, a)
}

/// Print `text`, then finish with success.
pub open spec fn report(text: Seq<char>) -> (Stage, ActionView) {
    (Stage::Report, ActionView::Print(text))
}

/// Finish with the error `e`.
pub open spec fn fail(e: ErrorView) -> (Stage, ActionView) {
    (Stage::Finished, ActionView::Finish(Err(e)))
}

/// Where the stage does not belong to the command, or the answer does not
/// fit the stage: finish.
pub open spec fn stray() -> (Stage, ActionView) {
    (Stage::Finished, ActionView::Finish(Ok(())))
}

/// What follows once it is known whether the home is initialized.
pub open spec fn after_probe(c: CommandView, s: SettingsView, initialized: bool) -> (
    Stage,
    ActionView,
) {
    match c {
        CommandView::Init => if initialized {
            report("Already initialized\n"@)
        } else {
            goto(Stage::InitCreateDirs, ActionView::CreateDirAll(keys_dir_of(s)))
        },
        CommandView::Destroy { yes } => if !initialized {
            report("Nothing to do: RSKM_HOME dir is not initialized\n"@)
        } else if yes {
            goto(Stage::DestroyRemove, ActionView::RemoveDirAll(s.home))
        } else {
            goto(Stage::DestroyPrompt, ActionView::Prompt(destroy_question()))
        },
        _ => if !initialized {
            fail(ErrorView::NotInitialized)
        } else {
            match c {
                CommandView::Create { key_name, .. } => goto(
                    Stage::CreateProbeKey,
                    ActionView::CheckExists(key_path_of(s, key_name)),
                ),
                CommandView::Rename { key_name, .. } => goto(
                    Stage::RenameProbeKey,
                    ActionView::CheckExists(key_path_of(s, key_name)),
                ),
                CommandView::Delete { key_name } => goto(
                    Stage::DeleteProbeKey,
                    ActionView::CheckExists(key_path_of(s, key_name)),
                ),
                CommandView::List => goto(Stage::ListRead, ActionView::ListDir(keys_dir_of(s))),
                CommandView::Show { key_name } => goto(
                    Stage::ShowProbePub,
                    ActionView::CheckExists(pub_path_of(key_path_of(s, key_name))),
                ),
                CommandView::Add { key_name } => goto(
                    Stage::AgentProbeKey,
                    ActionView::CheckExists(key_path_of(s, key_name)),
                ),
                CommandView::Remove { key_name } => goto(
                    Stage::AgentProbeKey,
                    ActionView::CheckExists(key_path_of(s, key_name)),
                ),
                _ => stray(),
            }
        },
    }
}

/// The steps of `init`, after the probes.
pub open spec fn init_step(s: SettingsView, stage: Stage, ev: EventView) -> (Stage, ActionView) {
    match (stage, ev) {
        (Stage::InitCreateDirs, EventView::Done) => goto(
            Stage::InitSerialize,
            ActionView::SerializeSettings,
        ),
        (Stage::InitSerialize, EventView::Serialized(text)) => goto(
            Stage::InitWrite,
            ActionView::WriteFile { path: path_join(s.home, "rskm.toml"@), contents: text },
        ),
        (Stage::InitSerialize, EventView::SerializeFailed(msg)) => fail(
            ErrorView::ConfigWriteError(msg),
        ),
        (Stage::InitWrite, EventView::Done) => report("Initialized RSKM_HOME\n"@),
        (_, EventView::Failed(e)) => fail(ErrorView::Io(e)),
        _ => stray(),
    }
}

/// The steps of `create`, after the probes.
pub open spec fn create_step(
    name: Seq<char>,
    given: Option<Seq<char>>,
    s: SettingsView,
    stage: Stage,
    ev: EventView,
) -> (Stage, ActionView) {
    let key_type = chosen_key_type(given, s);
    match (stage, ev) {
        (Stage::CreateProbeKey, EventView::Exists(true)) => fail(ErrorView::KeyExists(name)),
        (Stage::CreateProbeKey, EventView::Exists(false)) => if key_type_named(key_type) is None {
            fail(ErrorView::UnknownKeyType(key_type))
        } else {
            goto(Stage::CreateKeygen, keygen_run(key_type, key_path_of(s, name)))
        },
        (Stage::CreateKeygen, EventView::Exited(true)) => report(
            "Created key '"@ + name + "' ("@ + key_type + ")\n"@,
        ),
        (Stage::CreateKeygen, _) => fail(ErrorView::KeygenFailed),
        _ => stray(),
    }
}

/// The steps of `rename`, after the probes.
pub open spec fn rename_step(
    name: Seq<char>,
    new_name: Seq<char>,
    s: SettingsView,
    stage: Stage,
    ev: EventView,
) -> (Stage, ActionView) {
    let from = key_path_of(s, name);
    let to = key_path_of(s, new_name);
    let done = "Renamed key '"@ + name + "' to '"@ + new_name + "'\n"@;
    match (stage, ev) {
        (Stage::RenameProbeKey, EventView::Exists(false)) => fail(ErrorView::KeyNotFound(name)),
        (Stage::RenameProbeKey, EventView::Exists(true)) => goto(
            Stage::RenameKey,
            ActionView::RenameFile { from, to },
        ),
        (Stage::RenameKey, EventView::Done) => goto(
            Stage::RenameProbePub,
            ActionView::CheckExists(pub_path_of(from)),
        ),
        (Stage::RenameProbePub, EventView::Exists(true)) => goto(
            Stage::RenamePub,
            ActionView::RenameFile { from: pub_path_of(from), to: pub_path_of(to) },
        ),
        (Stage::RenameProbePub, EventView::Exists(false)) => report(done),
        (Stage::RenamePub, EventView::Done) => report(done),
        (_, EventView::Failed(e)) => fail(ErrorView::Io(e)),
        _ => stray(),
    }
}

/// The steps of `delete`, after the probes.
pub open spec fn delete_step(name: Seq<char>, s: SettingsView, stage: Stage, ev: EventView) -> (
    Stage,
    ActionView,
) {
    let path = key_path_of(s, name);
    let done = "Deleted key '"@ + name + "'\n"@;
    match (stage, ev) {
        (Stage::DeleteProbeKey, EventView::Exists(false)) => fail(ErrorView::KeyNotFound(name)),
        (Stage::DeleteProbeKey, EventView::Exists(true)) => goto(
            Stage::DeleteKey,
            ActionView::RemoveFile(path),
        ),
        (Stage::DeleteKey, EventView::Done) => goto(
            Stage::DeleteProbePub,
            ActionView::CheckExists(pub_path_of(path)),
        ),
        (Stage::DeleteProbePub, EventView::Exists(true)) => goto(
            Stage::DeletePub,
            ActionView::RemoveFile(pub_path_of(path)),
        ),
        (Stage::DeleteProbePub, EventView::Exists(false)) => report(done),
        (Stage::DeletePub, EventView::Done) => report(done),
        (_, EventView::Failed(e)) => fail(ErrorView::Io(e)),
        _ => stray(),
    }
}

/// The steps of `show`, after the probes.
pub open spec fn show_step(name: Seq<char>, s: SettingsView, stage: Stage, ev: EventView) -> (
    Stage,
    ActionView,
) {
    let path = pub_path_of(key_path_of(s, name));
    match (stage, ev) {
        (Stage::ShowProbePub, EventView::Exists(false)) => fail(ErrorView::KeyNotFound(name)),
        (Stage::ShowProbePub, EventView::Exists(true)) => goto(
            Stage::ShowRead,
            ActionView::ReadFile(path),
        ),
        (Stage::ShowRead, EventView::Contents(text)) => report(text),
        (Stage::ShowRead, EventView::Failed(e)) => fail(ErrorView::Io(e)),
        _ => stray(),
    }
}

/// The steps of `add` (`adding`) and `remove`, after the probes.
pub open spec fn agent_step(
    adding: bool,
    name: Seq<char>,
    s: SettingsView,
    stage: Stage,
    ev: EventView,
) -> (Stage, ActionView) {
    match (stage, ev) {
        (Stage::AgentProbeKey, EventView::Exists(false)) => fail(ErrorView::KeyNotFound(name)),
        (Stage::AgentProbeKey, EventView::Exists(true)) => goto(
            Stage::AgentRun,
            agent_run(adding, key_path_of(s, name)),
        ),
        (Stage::AgentRun, EventView::SpawnFailed) => fail(ErrorView::AgentNotRunning),
        (Stage::AgentRun, EventView::Exited(false)) => fail(
            ErrorView::AgentOperationFailed(
                if adding {
                    "failed to add '"@ + name + "'"@
                } else {
                    "failed to remove '"@ + name + "'"@
                },
            ),
        ),
        (Stage::AgentRun, EventView::Exited(true)) => report(
            if adding {
                "Added key '"@ + name + "' to agent.\n"@
            } else {
                "Removed key '"@ + name + "' from agent.\n"@
            },
        ),
        _ => stray(),
    }
}

/// The steps of `destroy`, after the probes.
pub open spec fn destroy_step(s: SettingsView, stage: Stage, ev: EventView) -> (Stage, ActionView) {
    match (stage, ev) {
        (Stage::DestroyPrompt, EventView::Answer(answer)) => if is_confirmation(answer) {
            goto(Stage::DestroyRemove, ActionView::RemoveDirAll(s.home))
        } else {
            report("Aborted.\n"@)
        },
        (Stage::DestroyRemove, EventView::Done) => report("Destroyed RSKM_HOME.\n"@),
        (Stage::DestroyRemove, EventView::Failed(e)) => fail(ErrorView::Io(e)),
        _ => stray(),
    }
}

/// The next stage and request of a command at stage `e.stage` that gets the
/// answer `ev`.
pub open spec fn next_step(e: ExecutionView, ev: EventView) -> (Stage, ActionView) {
    let s = e.settings;
    match e.stage {
        Stage::ProbeHome => match ev {
            EventView::Exists(true) => goto(
                Stage::ProbeKeysDir,
                ActionView::CheckExists(keys_dir_of(s)),
            ),
            EventView::Exists(false) => after_probe(e.command, s, false),
            _ => stray(),
        },
        Stage::ProbeKeysDir => match ev {
            EventView::Exists(b) => after_probe(e.command, s, b),
            _ => stray(),
        },
        Stage::Report => match ev {
            EventView::Done => (Stage::Finished, ActionView::Finish(Ok(()))),
            _ => stray(),
        },
        Stage::Finished => stray(),
        Stage::ListRead => match (e.command, ev) {
            (CommandView::List, EventView::Listing(names)) => report(
                listing_text(sorted_key_names(names)),
            ),
            (CommandView::List, EventView::Failed(err)) => fail(ErrorView::Io(err)),
            _ => stray(),
        },
        _ => match e.command {
            CommandView::Init => init_step(s, e.stage, ev),
            CommandView::Create { key_name, key_type } => create_step(
                key_name,
                key_type,
                s,
                e.stage,
                ev,
            ),
            CommandView::Rename { key_name, new_name } => rename_step(
                key_name,
                new_name,
                s,
                e.stage,
                ev,
            ),
            CommandView::Delete { key_name } => delete_step(key_name, s, e.stage, ev),
            CommandView::Show { key_name } => show_step(key_name, s, e.stage, ev),
            CommandView::Add { key_name } => agent_step(true, key_name, s, e.stage, ev),
            CommandView::Remove { key_name } => agent_step(false, key_name, s, e.stage, ev),
            CommandView::Destroy { .. } => destroy_step(s, e.stage, ev),
            CommandView::List => stray(),
        },
    }
}

/// A command being run against the settings it was started with.
pub struct Execution {
    command: Commands,
    settings: RskmSettings,
    stage: Stage,
}

impl Execution {
    /// A command is always at one of its own stages.
    #[verifier::type_invariant]
    spec fn stage_belongs(self) -> bool {
        stage_fits(self.command@, self.stage)
    }
}

impl View for Execution {
    type V = ExecutionView;

    closed spec fn view(&self) -> ExecutionView {
        ExecutionView { command: self.command@, settings: self.settings@, stage: self.stage }
    }
}

fn finish_err(e: RskmError) -> (r: (Stage, Action))
    ensures
        (r.0, r.1@) == fail(e@),
{
    (Stage::Finished, Action::Finish(Err(e)))
}

fn report_text(text: String) -> (r: (Stage, Action))
    ensures
        (r.0, r.1@) == report(text@),
{
    (Stage::Report, Action::Print(text))
}

fn stray_step() -> (r: (Stage, Action))
    ensures
        (r.0, r.1@) == stray(),
{
    (Stage::Finished, Action::Finish(Ok(())))
}

/// Whether the user's answer agrees to destroying the home: trimmed by
/// `str::trim` and lowered by `str::to_lowercase`, it is `y`.
pub fn confirms(answer: &str) -> (r: bool)
    ensures
        r == is_confirmation(answer@),
{
    let lowered = to_lowercase(trim(answer));
    is_yes(lowered.as_str())
}

/// Whether an answer, already trimmed and lowered, is `y`.
pub fn is_yes(lowered: &str) -> (r: bool)
    ensures
        r == (lowered@ == "y"@),
{
    str_eq(lowered, "y")
}

impl Execution {
    /// Starts `command` against `settings`: the first request asks whether
    /// the home directory exists.
    pub fn start(command: Commands, settings: &RskmSettings) -> (r: (Execution, Action))
        ensures
            r.0@ == (ExecutionView {
                command: command@,
                settings: settings@,
                stage: Stage::ProbeHome,
            }),
            r.1@ == ActionView::CheckExists(settings@.home),
            stage_fits(r.0@.command, r.0@.stage),
    {
        let home = String::from_str(settings.rskm_home());
        (Execution { command, settings: settings.clone(), stage: Stage::ProbeHome }, Action::CheckExists(home))
    }

    /// The stage the command is at, which is one of its own.
    pub fn stage(&self) -> (r: Stage)
        ensures
            r == self@.stage,
            stage_fits(self@.command, r),
    {
        proof {
            use_type_invariant(self);
        }
        self.stage
    }

    /// Whether the command is over.
    pub fn is_finished(&self) -> (r: bool)
        ensures
            r == (self@.stage == Stage::Finished),
    {
        self.stage == Stage::Finished
    }

    /// Whether the command waits for an answer like `event`.
    pub fn waits_for(&self, event: &Event) -> (r: bool)
        ensures
            r == accepts(self@.stage, event@),
    {
        match self.stage {
            Stage::ProbeHome | Stage::ProbeKeysDir | Stage::CreateProbeKey
            | Stage::RenameProbeKey | Stage::RenameProbePub | Stage::DeleteProbeKey
            | Stage::DeleteProbePub | Stage::ShowProbePub | Stage::AgentProbeKey => matches!(
                event,
                Event::Exists(_)
            ),
            Stage::InitCreateDirs | Stage::InitWrite | Stage::RenameKey | Stage::RenamePub
            | Stage::DeleteKey | Stage::DeletePub | Stage::DestroyRemove => matches!(
                event,
                Event::Done | Event::Failed(_)
            ),
            Stage::InitSerialize => matches!(event, Event::Serialized(_) | Event::SerializeFailed(_)),
            Stage::CreateKeygen | Stage::AgentRun => matches!(
                event,
                Event::Exited(_) | Event::SpawnFailed
            ),
            Stage::ListRead => matches!(event, Event::Listing(_) | Event::Failed(_)),
            Stage::ShowRead => matches!(event, Event::Contents(_) | Event::Failed(_)),
            Stage::DestroyPrompt => matches!(event, Event::Answer(_)),
            Stage::Report => matches!(event, Event::Done),
            Stage::Finished => false,
        }
    }

    /// Takes the answer to the last request and gives the next request.
    pub fn step(&mut self, event: Event) -> (a: Action)
        requires
            accepts(old(self)@.stage, event@),
        ensures
            final(self)@.command == old(self)@.command,
            final(self)@.settings == old(self)@.settings,
            (final(self)@.stage, a@) == next_step(old(self)@, event@),
            stage_fits(final(self)@.command, final(self)@.stage),
    {
        proof {
            use_type_invariant(&*self);
            lemma_step_keeps_stage_fit(self@, event@);
        }
        let (stage, action) = self.advance(event);
        self.stage = stage;
        action
    }

    fn key_path(&self, name: &str) -> (r: String)
        ensures
            r@ == key_path_of(self@.settings, name@),
    {
        let dir = self.settings.keys_dir();
        join(dir.as_str(), name)
    }

    fn after_probe(&self, initialized: bool) -> (r: (Stage, Action))
        ensures
            (r.0, r.1@) == after_probe(self@.command, self@.settings, initialized),
    {
        match &self.command {
            Commands::Init => {
                if initialized {
                    report_text(String::from_str("Already initialized\n"))
                } else {
                    (Stage::InitCreateDirs, Action::CreateDirAll(self.settings.keys_dir()))
                }
            },
            Commands::Destroy { yes } => {
                if !initialized {
                    report_text(
                        String::from_str("Nothing to do: RSKM_HOME dir is not initialized\n"),
                    )
                } else if *yes {
                    (
                        Stage::DestroyRemove,
                        Action::RemoveDirAll(String::from_str(self.settings.rskm_home())),
                    )
                } else {
                    (
                        Stage::DestroyPrompt,
                        Action::Prompt(
                            String::from_str(
                                "Do you really want to delete RSKM_HOME? This cannot be undone! [y/N] ",
                            ),
                        ),
                    )
                }
            },
            _ => {
                if !initialized {
                    return finish_err(RskmError::NotInitialized);
                }
                match &self.command {
                    Commands::Create { key_name, .. } => (
                        Stage::CreateProbeKey,
                        Action::CheckExists(self.key_path(key_name.as_str())),
                    ),
                    Commands::Rename { key_name, .. } => (
                        Stage::RenameProbeKey,
                        Action::CheckExists(self.key_path(key_name.as_str())),
                    ),
                    Commands::Delete { key_name } => (
                        Stage::DeleteProbeKey,
                        Action::CheckExists(self.key_path(key_name.as_str())),
                    ),
                    Commands::List => (Stage::ListRead, Action::ListDir(self.settings.keys_dir())),
                    Commands::Show { key_name } => {
                        let path = self.key_path(key_name.as_str());
                        (Stage::ShowProbePub, Action::CheckExists(public_key_path(path.as_str())))
                    },
                    Commands::Add { key_name } => (
                        Stage::AgentProbeKey,
                        Action::CheckExists(self.key_path(key_name.as_str())),
                    ),
                    Commands::Remove { key_name } => (
                        Stage::AgentProbeKey,
                        Action::CheckExists(self.key_path(key_name.as_str())),
                    ),
                    _ => stray_step(),
                }
            },
        }
    }

    fn init_step(&self, event: Event) -> (r: (Stage, Action))
        ensures
            (r.0, r.1@) == init_step(self@.settings, self@.stage, event@),
    {
        match (self.stage, event) {
            (Stage::InitCreateDirs, Event::Done) => (Stage::InitSerialize, Action::SerializeSettings),
            (Stage::InitSerialize, Event::Serialized(text)) => (
                Stage::InitWrite,
                Action::WriteFile { path: self.settings.config_file(), contents: text },
            ),
            (Stage::InitSerialize, Event::SerializeFailed(msg)) => finish_err(
                RskmError::ConfigWriteError(msg),
            ),
            (Stage::InitWrite, Event::Done) => report_text(String::from_str("Initialized RSKM_HOME\n")),
            (_, Event::Failed(e)) => finish_err(RskmError::Io(e)),
            _ => stray_step(),
        }
    }

    fn create_step(&self, name: &String, given: &Option<String>, event: Event) -> (r: (
        Stage,
        Action,
    ))
        ensures
            (r.0, r.1@) == create_step(
                name@,
                match given {
                    Some(t) => Some(t@),
                    None => None,
                },
                self@.settings,
                self@.stage,
                event@,
            ),
    {
        let key_type = match given {
            Some(t) => t.clone(),
            None => String::from_str(self.settings.default_key_type()),
        };
        match (self.stage, event) {
            (Stage::CreateProbeKey, Event::Exists(true)) => finish_err(
                RskmError::KeyExists(name.clone()),
            ),
            (Stage::CreateProbeKey, Event::Exists(false)) => {
                match KeyTypes::parse(key_type.as_str()) {
                    Err(e) => finish_err(e),
                    Ok(_) => {
                        let path = self.key_path(name.as_str());
                        let ghost kt = key_type@;
                        let ghost pv = path@;
                        let args = vec![
                            String::from_str("-t"),
                            key_type,
                            String::from_str("-f"),
                            path,
                            String::from_str("-N"),
                            String::from_str(""),
                        ];
                        assert(string_views(args@) =~= seq!["-t"@, kt, "-f"@, pv, "-N"@, ""@]);
                        let action = Action::Run {
                            program: String::from_str("ssh-keygen"),
                            args,
                            discard_output: true,
                        };
                        assert(action@ == keygen_run(
                            chosen_key_type(
                                match given {
                                    Some(t) => Some(t@),
                                    None => None,
                                },
                                self@.settings,
                            ),
                            key_path_of(self@.settings, name@),
                        ));
                        (Stage::CreateKeygen, action)
                    },
                }
            },
            (Stage::CreateKeygen, Event::Exited(true)) => report_text(
                concat5("Created key '", name.as_str(), "' (", key_type.as_str(), ")\n"),
            ),
            (Stage::CreateKeygen, _) => finish_err(RskmError::KeygenFailed),
            _ => stray_step(),
        }
    }

    fn rename_step(&self, name: &String, new_name: &String, event: Event) -> (r: (Stage, Action))
        ensures
            (r.0, r.1@) == rename_step(name@, new_name@, self@.settings, self@.stage, event@),
    {
        let from = self.key_path(name.as_str());
        let to = self.key_path(new_name.as_str());
        let done = concat5("Renamed key '", name.as_str(), "' to '", new_name.as_str(), "'\n");
        match (self.stage, event) {
            (Stage::RenameProbeKey, Event::Exists(false)) => finish_err(
                RskmError::KeyNotFound(name.clone()),
            ),
            (Stage::RenameProbeKey, Event::Exists(true)) => (
                Stage::RenameKey,
                Action::RenameFile { from, to },
            ),
            (Stage::RenameKey, Event::Done) => (
                Stage::RenameProbePub,
                Action::CheckExists(public_key_path(from.as_str())),
            ),
            (Stage::RenameProbePub, Event::Exists(true)) => (
                Stage::RenamePub,
                Action::RenameFile {
                    from: public_key_path(from.as_str()),
                    to: public_key_path(to.as_str()),
                },
            ),
            (Stage::RenameProbePub, Event::Exists(false)) => report_text(done),
            (Stage::RenamePub, Event::Done) => report_text(done),
            (_, Event::Failed(e)) => finish_err(RskmError::Io(e)),
            _ => stray_step(),
        }
    }

    fn delete_step(&self, name: &String, event: Event) -> (r: (Stage, Action))
        ensures
            (r.0, r.1@) == delete_step(name@, self@.settings, self@.stage, event@),
    {
        let path = self.key_path(name.as_str());
        let done = concat3("Deleted key '", name.as_str(), "'\n");
        match (self.stage, event) {
            (Stage::DeleteProbeKey, Event::Exists(false)) => finish_err(
                RskmError::KeyNotFound(name.clone()),
            ),
            (Stage::DeleteProbeKey, Event::Exists(true)) => (
                Stage::DeleteKey,
                Action::RemoveFile(path),
            ),
            (Stage::DeleteKey, Event::Done) => (
                Stage::DeleteProbePub,
                Action::CheckExists(public_key_path(path.as_str())),
            ),
            (Stage::DeleteProbePub, Event::Exists(true)) => (
                Stage::DeletePub,
                Action::RemoveFile(public_key_path(path.as_str())),
            ),
            (Stage::DeleteProbePub, Event::Exists(false)) => report_text(done),
            (Stage::DeletePub, Event::Done) => report_text(done),
            (_, Event::Failed(e)) => finish_err(RskmError::Io(e)),
            _ => stray_step(),
        }
    }

    fn show_step(&self, name: &String, event: Event) -> (r: (Stage, Action))
        ensures
            (r.0, r.1@) == show_step(name@, self@.settings, self@.stage, event@),
    {
        match (self.stage, event) {
            (Stage::ShowProbePub, Event::Exists(false)) => finish_err(
                RskmError::KeyNotFound(name.clone()),
            ),
            (Stage::ShowProbePub, Event::Exists(true)) => {
                let path = self.key_path(name.as_str());
                (Stage::ShowRead, Action::ReadFile(public_key_path(path.as_str())))
            },
            (Stage::ShowRead, Event::Contents(text)) => report_text(text),
            (Stage::ShowRead, Event::Failed(e)) => finish_err(RskmError::Io(e)),
            _ => stray_step(),
        }
    }

    fn agent_step(&self, adding: bool, name: &String, event: Event) -> (r: (Stage, Action))
        ensures
            (r.0, r.1@) == agent_step(adding, name@, self@.settings, self@.stage, event@),
    {
        match (self.stage, event) {
            (Stage::AgentProbeKey, Event::Exists(false)) => finish_err(
                RskmError::KeyNotFound(name.clone()),
            ),
            (Stage::AgentProbeKey, Event::Exists(true)) => {
                let path = self.key_path(name.as_str());
                let ghost pv = path@;
                let args = if adding {
                    vec![path]
                } else {
                    vec![String::from_str("-d"), path]
                };
                assert(string_views(args@) =~= if adding {
                    seq![pv]
                } else {
                    seq!["-d"@, pv]
                });
                let action = Action::Run {
                    program: String::from_str("ssh-add"),
                    args,
                    discard_output: false,
                };
                assert(action@ == agent_run(adding, key_path_of(self@.settings, name@)));
                (Stage::AgentRun, action)
            },
            (Stage::AgentRun, Event::SpawnFailed) => finish_err(RskmError::AgentNotRunning),
            (Stage::AgentRun, Event::Exited(false)) => {
                let msg = if adding {
                    concat3("failed to add '", name.as_str(), "'")
                } else {
                    concat3("failed to remove '", name.as_str(), "'")
                };
                finish_err(RskmError::AgentOperationFailed(msg))
            },
            (Stage::AgentRun, Event::Exited(true)) => {
                let text = if adding {
                    concat3("Added key '", name.as_str(), "' to agent.\n")
                } else {
                    concat3("Removed key '", name.as_str(), "' from agent.\n")
                };
                report_text(text)
            },
            _ => stray_step(),
        }
    }

    fn destroy_step(&self, event: Event) -> (r: (Stage, Action))
        ensures
            (r.0, r.1@) == destroy_step(self@.settings, self@.stage, event@),
    {
        match (self.stage, event) {
            (Stage::DestroyPrompt, Event::Answer(answer)) => {
                if confirms(answer.as_str()) {
                    (
                        Stage::DestroyRemove,
                        Action::RemoveDirAll(String::from_str(self.settings.rskm_home())),
                    )
                } else {
                    report_text(String::from_str("Aborted.\n"))
                }
            },
            (Stage::DestroyRemove, Event::Done) => report_text(
                String::from_str("Destroyed RSKM_HOME.\n"),
            ),
            (Stage::DestroyRemove, Event::Failed(e)) => finish_err(RskmError::Io(e)),
            _ => stray_step(),
        }
    }

    fn advance(&self, event: Event) -> (r: (Stage, Action))
        ensures
            (r.0, r.1@) == next_step(self@, event@),
    {
        match self.stage {
            Stage::ProbeHome => match event {
                Event::Exists(true) => (
                    Stage::ProbeKeysDir,
                    Action::CheckExists(self.settings.keys_dir()),
                ),
                Event::Exists(false) => self.after_probe(false),
                _ => stray_step(),
            },
            Stage::ProbeKeysDir => match event {
                Event::Exists(b) => self.after_probe(b),
                _ => stray_step(),
            },
            Stage::Report => match event {
                Event::Done => (Stage::Finished, Action::Finish(Ok(()))),
                _ => stray_step(),
            },
            Stage::Finished => stray_step(),
            Stage::ListRead => match (&self.command, event) {
                (Commands::List, Event::Listing(names)) => {
                    let keys = list_keys(&names);
                    report_text(listing_output(&keys))
                },
                (Commands::List, Event::Failed(err)) => finish_err(RskmError::Io(err)),
                _ => stray_step(),
            },
            _ => match &self.command {
                Commands::Init => self.init_step(event),
                Commands::Create { key_name, key_type } => self.create_step(
                    key_name,
                    key_type,
                    event,
                ),
                Commands::Rename { key_name, new_name } => self.rename_step(
                    key_name,
                    new_name,
                    event,
                ),
                Commands::Delete { key_name } => self.delete_step(key_name, event),
                Commands::Show { key_name } => self.show_step(key_name, event),
                Commands::Add { key_name } => self.agent_step(true, key_name, event),
                Commands::Remove { key_name } => self.agent_step(false, key_name, event),
                Commands::Destroy { .. } => self.destroy_step(event),
                Commands::List => stray_step(),
            },
        }
    }
}

} // verus!
