//! What holds of every run of a command, whatever the disk and the user
//! answer.

use vstd::prelude::*;
use crate::cli::{
    accepts, agent_run, answers, chosen_key_type, is_confirmation, key_path_of, keygen_run, next_step,
    pub_path_of, stage_fits, ActionView,
    CommandView, EventView, ExecutionView, Stage,
};
use crate::config::{chosen_home, config_file_of, keys_dir_of, SettingsView};
use crate::errors::ErrorView;
use crate::keys::key_types::{self, key_type_named};
use crate::keys::keys::{keygen_args, upper_key_type, KeyTypes};
use crate::text::{all_ascii, ascii_upper};
use crate::listing::{key_lines, listing_text, sorted_key_names};
use crate::paths::{lemma_public_key_path_differs, path_join, public_key_path_of};

verus! {

/// Whether `c` is a command that needs an initialized home.
pub open spec fn needs_home(c: CommandView) -> bool {
    !(c is Init) && !(c is Destroy)
}

/// How many more answers a command at `stage` can wait for, at most.
pub open spec fn steps_left(stage: Stage) -> nat {
    match stage {
        Stage::ProbeHome => 7,
        Stage::ProbeKeysDir => 6,
        Stage::RenameProbeKey | Stage::DeleteProbeKey => 5,
        Stage::InitCreateDirs | Stage::RenameKey | Stage::DeleteKey => 4,
        Stage::InitSerialize | Stage::CreateProbeKey | Stage::RenameProbePub
        | Stage::DeleteProbePub | Stage::ShowProbePub | Stage::AgentProbeKey
        | Stage::DestroyPrompt => 3,
        Stage::InitWrite | Stage::CreateKeygen | Stage::RenamePub | Stage::DeletePub
        | Stage::ListRead | Stage::ShowRead | Stage::AgentRun | Stage::DestroyRemove => 2,
        Stage::Report => 1,
        Stage::Finished => 0,
    }
}

/// Every answer brings the command closer to its end: a command finishes
/// after at most seven answers.
pub proof fn law_every_command_ends(e: ExecutionView, ev: EventView)
    requires
        accepts(e.stage, ev),
    ensures
        steps_left(next_step(e, ev).0) < steps_left(e.stage),
{
}

/// At the start and after each step the command waits for exactly the
/// answers to the request it made; once it has finished, it waits for
/// nothing.
pub proof fn law_answers_fit_requests(e: ExecutionView, ev: EventView, next: EventView)
    requires
        accepts(e.stage, ev),
    ensures
        accepts(Stage::ProbeHome, next) == answers(ActionView::CheckExists(e.settings.home), next),
        accepts(next_step(e, ev).0, next) == answers(next_step(e, ev).1, next),
{
}

/// The home directory is removed only by `destroy`, only once it is known to
/// be initialized, and only with `--yes` or right after the user's answer
/// agreed to it.
pub proof fn law_destroy_needs_consent(e: ExecutionView, ev: EventView)
    requires
        accepts(e.stage, ev),
        next_step(e, ev).1 is RemoveDirAll,
    ensures
        e.command is Destroy,
        next_step(e, ev).1 == ActionView::RemoveDirAll(e.settings.home),
        (e.stage == Stage::ProbeKeysDir && ev == EventView::Exists(true) && e.command->yes) || (
        e.stage == Stage::DestroyPrompt && ev is Answer && is_confirmation(ev->Answer_0)),
{
}

/// `ssh-keygen` runs only for `create`, only right after the key's path was
/// found free, only with a key type of a known name, and it writes the key
/// to the path that was found free.
pub proof fn law_keygen_only_for_new_keys(e: ExecutionView, ev: EventView)
    requires
        accepts(e.stage, ev),
        next_step(e, ev).1 is Run,
        next_step(e, ev).1->program == "ssh-keygen"@,
    ensures
        e.command is Create,
        e.stage == Stage::CreateProbeKey,
        ev == EventView::Exists(false),
        ({
            let kt = match e.command->key_type {
                Some(t) => t,
                None => e.settings.default_key_type,
            };
            &&& key_type_named(kt) is Some
            &&& next_step(e, ev).1 == ActionView::Run {
                program: "ssh-keygen"@,
                args: seq![
                    "-t"@,
                    kt,
                    "-f"@,
                    key_path_of(e.settings, e.command->Create_key_name),
                    "-N"@,
                    ""@,
                ],
                discard_output: true,
            }
        }),
{
    assert("ssh-add"@ != "ssh-keygen"@) by {
        assert("ssh-add"@.len() != "ssh-keygen"@.len()) by {
            reveal_strlit("ssh-add");
            reveal_strlit("ssh-keygen");
        }
    }
}

/// The public key is looked at by `rename` and `delete` only after the
/// private key was renamed or removed successfully.
pub proof fn law_public_key_follows_private_key(e: ExecutionView, ev: EventView)
    requires
        accepts(e.stage, ev),
    ensures
        next_step(e, ev).0 == Stage::RenameProbePub ==> e.stage == Stage::RenameKey && ev
            == EventView::Done,
        next_step(e, ev).0 == Stage::DeleteProbePub ==> e.stage == Stage::DeleteKey && ev
            == EventView::Done,
{
}

/// A failure to change, read or list the disk ends the command with that
/// very error.
pub proof fn law_io_failure_ends_command(e: ExecutionView, err: std::io::Error)
    requires
        stage_fits(e.command, e.stage),
        accepts(e.stage, EventView::Failed(err)),
    ensures
        next_step(e, EventView::Failed(err)) == (
            Stage::Finished,
            ActionView::Finish(Err(ErrorView::Io(err))),
        ),
{
}


/// What a command meets outside the disk: the user's answer, the settings
/// as TOML, whether programs can be started and whether they then succeed, and what a listed directory and a read
/// file hold.  The listing and the file's text are taken as given here, not
/// derived from the set of paths on the disk; the laws on `list` and `show`
/// speak of them as given.
pub struct Surroundings {
    pub answer: Seq<char>,
    pub serialized: Seq<char>,
    pub programs_start: bool,
    pub programs_succeed: bool,
    pub listing: Seq<Seq<char>>,
    pub contents: Seq<char>,
}

/// Whether `dir` is `path` or a directory on the way to it: `path` begins
/// with `dir`, and `dir` ends there at a component's end.
pub open spec fn leads_to(dir: Seq<char>, path: Seq<char>) -> bool {
    &&& dir.len() > 0
    &&& dir.is_prefix_of(path)
    &&& (dir.len() == path.len() || path[dir.len() as int] == '/' || dir.last() == '/')
}

/// The directories that creating `path` with its parents brings into being.
pub open spec fn dirs_to(path: Seq<char>) -> Set<Seq<char>> {
    Set::new(|q: Seq<char>| leads_to(q, path))
}

/// What is left of `disk` once the directory `dir` is removed with all it
/// holds.
pub open spec fn without_tree(disk: Set<Seq<char>>, dir: Seq<char>) -> Set<Seq<char>> {
    disk.filter(|q: Seq<char>| !leads_to(dir, q))
}

/// A disk, as the set of the paths that exist, answering a request when
/// every change succeeds: a directory created with its parents exists with
/// them, a written file exists, a renamed file exists under its new path
/// only, a removed file no longer exists, and a removed directory goes with
/// all it holds.  A successful `ssh-keygen` writes the key at its fourth
/// argument (the path after `-f`) and the public key beside it, with `.pub`
/// appended; `ssh-add` leaves the disk as it is, and a failed program is
/// taken to have written nothing, as is one that could not be started.
pub open spec fn answer_on(disk: Set<Seq<char>>, out: Surroundings, a: ActionView) -> (
    Set<Seq<char>>,
    EventView,
) {
    match a {
        ActionView::CheckExists(p) => (disk, EventView::Exists(disk.contains(p))),
        ActionView::CreateDirAll(p) => (disk.union(dirs_to(p)), EventView::Done),
        ActionView::SerializeSettings => (disk, EventView::Serialized(out.serialized)),
        ActionView::WriteFile { path, .. } => (disk.insert(path), EventView::Done),
        ActionView::Run { program, args, .. } => if !out.programs_start {
            (disk, EventView::SpawnFailed)
        } else {
            (
                if out.programs_succeed && program == "ssh-keygen"@ && args.len() >= 4 {
                    disk.insert(args[3]).insert(public_key_path_of(args[3]))
                } else {
                    disk
                },
                EventView::Exited(out.programs_succeed),
            )
        },
        ActionView::RenameFile { from, to } => (disk.remove(from).insert(to), EventView::Done),
        ActionView::RemoveFile(p) => (disk.remove(p), EventView::Done),
        ActionView::ListDir(_) => (disk, EventView::Listing(out.listing)),
        ActionView::ReadFile(_) => (disk, EventView::Contents(out.contents)),
        ActionView::Prompt(_) => (disk, EventView::Answer(out.answer)),
        ActionView::RemoveDirAll(p) => (without_tree(disk, p), EventView::Done),
        ActionView::Print(_) => (disk, EventView::Done),
        ActionView::Finish(_) => (disk, EventView::Done),
    }
}

/// What a run leaves: the disk, the text printed, the programs run, the
/// files written with the text last written to each, and the result, `None`
/// where the command did not finish.
pub struct Outcome {
    pub disk: Set<Seq<char>>,
    pub printed: Seq<char>,
    pub programs: Seq<ActionView>,
    pub written: Map<Seq<char>, Seq<char>>,
    pub result: Option<Result<(), ErrorView>>,
}

/// What a command at `e` that has just made request `a` leaves, when each
/// request is answered as `answer_on` says, after at most `fuel` answers;
/// `so_far` is what was left before.
pub open spec fn run_on(
    e: ExecutionView,
    a: ActionView,
    so_far: Outcome,
    out: Surroundings,
    fuel: nat,
) -> Outcome
    decreases fuel,
{
    if a is Finish {
        Outcome { result: Some(a->Finish_0), ..so_far }
    } else if fuel == 0 {
        so_far
    } else {
        let (next_disk, ev) = answer_on(so_far.disk, out, a);
        let (stage, next_a) = next_step(e, ev);
        let printed = match a {
            ActionView::Print(t) => so_far.printed + t,
            _ => so_far.printed,
        };
        let programs = if a is Run {
            so_far.programs.push(a)
        } else {
            so_far.programs
        };
        let written = match a {
            ActionView::WriteFile { path, contents } => so_far.written.insert(path, contents),
            _ => so_far.written,
        };
        run_on(
            ExecutionView { stage, ..e },
            next_a,
            Outcome { disk: next_disk, printed, programs, written, result: None },
            out,
            (fuel - 1) as nat,
        )
    }
}

/// What command `c` leaves when it runs from its start on `disk`.
pub open spec fn run_command(
    c: CommandView,
    s: SettingsView,
    disk: Set<Seq<char>>,
    out: Surroundings,
) -> Outcome {
    run_on(
        ExecutionView { command: c, settings: s, stage: Stage::ProbeHome },
        ActionView::CheckExists(s.home),
        Outcome {
            disk,
            printed: Seq::empty(),
            programs: Seq::empty(),
            written: Map::empty(),
            result: None,
        },
        out,
        7,
    )
}

/// A run that changed `disk` into `after`, printed `printed`, ran no
/// program, wrote no file and ended with `result`.
pub open spec fn ended(
    after: Set<Seq<char>>,
    printed: Seq<char>,
    result: Result<(), ErrorView>,
) -> Outcome {
    Outcome {
        disk: after,
        printed,
        programs: Seq::empty(),
        written: Map::empty(),
        result: Some(result),
    }
}

/// Whether the home and its keys directory exist on `disk`.
pub open spec fn initialized_on(disk: Set<Seq<char>>, s: SettingsView) -> bool {
    disk.contains(s.home) && disk.contains(keys_dir_of(s))
}

/// A command that needs an initialized home, on a disk where it is not,
/// changes nothing, prints nothing, runs nothing and finishes with
/// `NotInitialized`.
pub proof fn law_uninitialized_run_changes_nothing(
    c: CommandView,
    s: SettingsView,
    disk: Set<Seq<char>>,
    out: Surroundings,
)
    requires
        needs_home(c),
        !initialized_on(disk, s),
    ensures
        run_command(c, s, disk, out) == ended(disk, Seq::empty(), Err(ErrorView::NotInitialized)),
{
    reveal_with_fuel(run_on, 3);
}

/// The home is a directory on the way to its keys directory.
proof fn lemma_home_leads_to_keys_dir(s: SettingsView)
    requires
        s.home.len() > 0,
    ensures
        leads_to(s.home, keys_dir_of(s)),
{
    reveal_strlit("keys");
    let k = keys_dir_of(s);
    assert(k.subrange(0, s.home.len() as int) =~= s.home);
}

/// `init` on a home that is not initialized creates the keys directory with
/// its parents and writes the configuration file, with exactly the text the
/// settings were serialized to; afterwards the home is initialized.
pub proof fn law_init_creates_keys_dir_and_config(
    s: SettingsView,
    disk: Set<Seq<char>>,
    out: Surroundings,
)
    requires
        !initialized_on(disk, s),
    ensures
        run_command(CommandView::Init, s, disk, out) == (Outcome {
            disk: disk.union(dirs_to(keys_dir_of(s))).insert(config_file_of(s)),
            printed: "Initialized RSKM_HOME\n"@,
            programs: Seq::empty(),
            written: Map::empty().insert(config_file_of(s), out.serialized),
            result: Some(Ok(())),
        }),
        s.home.len() > 0 ==> initialized_on(run_command(CommandView::Init, s, disk, out).disk, s),
{
    reveal_with_fuel(run_on, 8);
    if s.home.len() > 0 {
        lemma_home_leads_to_keys_dir(s);
        reveal_strlit("keys");
        assert(leads_to(keys_dir_of(s), keys_dir_of(s)));
        assert(dirs_to(keys_dir_of(s)).contains(s.home));
        assert(dirs_to(keys_dir_of(s)).contains(keys_dir_of(s)));
    }
}

/// `init` on an initialized home changes nothing.
pub proof fn law_init_twice_changes_nothing(s: SettingsView, disk: Set<Seq<char>>, out: Surroundings)
    requires
        initialized_on(disk, s),
    ensures
        run_command(CommandView::Init, s, disk, out) == ended(
            disk,
            "Already initialized\n"@,
            Ok(()),
        ),
{
    reveal_with_fuel(run_on, 8);
}

/// `create` of a key that exists changes nothing, runs nothing and finishes
/// with `KeyExists`.
pub proof fn law_create_existing_key_changes_nothing(
    name: Seq<char>,
    key_type: Option<Seq<char>>,
    s: SettingsView,
    disk: Set<Seq<char>>,
    out: Surroundings,
)
    requires
        initialized_on(disk, s),
        disk.contains(key_path_of(s, name)),
    ensures
        run_command(CommandView::Create { key_name: name, key_type }, s, disk, out) == ended(
            disk,
            Seq::empty(),
            Err(ErrorView::KeyExists(name)),
        ),
{
    reveal_with_fuel(run_on, 8);
}

/// `create` of a new key runs, when the chosen key type has a known name,
/// `ssh-keygen -t <key type> -f <key path> -N ""` once with its output
/// discarded; when `ssh-keygen` succeeds the key and its public key exist
/// and the command succeeds, and when it cannot start or fails the command
/// finishes with `KeygenFailed`.  With an unknown key type nothing runs and
/// nothing changes.
pub proof fn law_create_runs_keygen_once(
    name: Seq<char>,
    key_type: Option<Seq<char>>,
    s: SettingsView,
    disk: Set<Seq<char>>,
    out: Surroundings,
)
    requires
        initialized_on(disk, s),
        !disk.contains(key_path_of(s, name)),
    ensures
        ({
            let kt = match key_type {
                Some(t) => t,
                None => s.default_key_type,
            };
            let path = key_path_of(s, name);
            let keygen = ActionView::Run {
                program: "ssh-keygen"@,
                args: seq!["-t"@, kt, "-f"@, path, "-N"@, ""@],
                discard_output: true,
            };
            run_command(CommandView::Create { key_name: name, key_type }, s, disk, out) == if key_type_named(kt) is None {
                ended(disk, Seq::empty(), Err(ErrorView::UnknownKeyType(kt)))
            } else if out.programs_start && out.programs_succeed {
                Outcome {
                    disk: disk.insert(path).insert(path + ".pub"@),
                    printed: "Created key '"@ + name + "' ("@ + kt + ")\n"@,
                    programs: seq![keygen],
                    written: Map::empty(),
                    result: Some(Ok(())),
                }
            } else {
                Outcome {
                    disk,
                    printed: Seq::empty(),
                    programs: seq![keygen],
                    written: Map::empty(),
                    result: Some(Err(ErrorView::KeygenFailed)),
                }
            }
        }),
{
    reveal_with_fuel(run_on, 8);
    let kt = chosen_key_type(key_type, s);
    assert(Seq::<ActionView>::empty().push(keygen_run(kt, key_path_of(s, name))) =~= seq![
        keygen_run(kt, key_path_of(s, name)),
    ]);
}

/// `rename` moves the key, and where there is one its public key, to the
/// new name.
pub proof fn law_rename_moves_key_and_public_key(
    name: Seq<char>,
    new_name: Seq<char>,
    s: SettingsView,
    disk: Set<Seq<char>>,
    out: Surroundings,
)
    requires
        initialized_on(disk, s),
        disk.contains(key_path_of(s, name)),
        pub_path_of(key_path_of(s, name)) != key_path_of(s, new_name),
    ensures
        ({
            let from = key_path_of(s, name);
            let to = key_path_of(s, new_name);
            let moved = disk.remove(from).insert(to);
            run_command(CommandView::Rename { key_name: name, new_name }, s, disk, out) == ended(
                if disk.contains(pub_path_of(from)) {
                    moved.remove(pub_path_of(from)).insert(pub_path_of(to))
                } else {
                    moved
                },
                "Renamed key '"@ + name + "' to '"@ + new_name + "'\n"@,
                Ok(()),
            )
        }),
{
    reveal_with_fuel(run_on, 8);
    lemma_public_key_path_differs(key_path_of(s, name));
}

/// `rename`, `delete`, `add` and `remove` of a key that does not exist
/// change nothing, run nothing and finish with `KeyNotFound`.
pub proof fn law_missing_key_is_not_found(
    c: CommandView,
    s: SettingsView,
    disk: Set<Seq<char>>,
    out: Surroundings,
)
    requires
        c is Rename || c is Delete || c is Add || c is Remove,
        initialized_on(disk, s),
        !disk.contains(
            key_path_of(
                s,
                match c {
                    CommandView::Rename { key_name, .. } => key_name,
                    CommandView::Delete { key_name } => key_name,
                    CommandView::Add { key_name } => key_name,
                    CommandView::Remove { key_name } => key_name,
                    _ => Seq::empty(),
                },
            ),
        ),
    ensures
        run_command(c, s, disk, out) == ended(
            disk,
            Seq::empty(),
            Err(
                ErrorView::KeyNotFound(
                    match c {
                        CommandView::Rename { key_name, .. } => key_name,
                        CommandView::Delete { key_name } => key_name,
                        CommandView::Add { key_name } => key_name,
                        CommandView::Remove { key_name } => key_name,
                        _ => Seq::empty(),
                    },
                ),
            ),
        ),
{
    reveal_with_fuel(run_on, 8);
}

/// `delete` removes the key and, where there is one, its public key.
pub proof fn law_delete_removes_key_and_public_key(
    name: Seq<char>,
    s: SettingsView,
    disk: Set<Seq<char>>,
    out: Surroundings,
)
    requires
        initialized_on(disk, s),
        disk.contains(key_path_of(s, name)),
    ensures
        run_command(CommandView::Delete { key_name: name }, s, disk, out) == ended(
            disk.remove(key_path_of(s, name)).remove(pub_path_of(key_path_of(s, name))),
            "Deleted key '"@ + name + "'\n"@,
            Ok(()),
        ),
{
    reveal_with_fuel(run_on, 8);
    let key = key_path_of(s, name);
    let public = pub_path_of(key);
    lemma_public_key_path_differs(key);
    if !disk.contains(public) {
        assert(disk.remove(key).remove(public) =~= disk.remove(key));
    }
}

/// `list` changes nothing and prints the names in the keys directory that
/// are not public keys, in ascending order, or `No keys found.`.
pub proof fn law_list_prints_sorted_keys(s: SettingsView, disk: Set<Seq<char>>, out: Surroundings)
    requires
        initialized_on(disk, s),
    ensures
        run_command(CommandView::List, s, disk, out) == ended(
            disk,
            listing_text(sorted_key_names(out.listing)),
            Ok(()),
        ),
{
    reveal_with_fuel(run_on, 8);
}

/// `show` prints the public key's file as it is, or finishes with
/// `KeyNotFound` where there is no public key; it changes nothing.
pub proof fn law_show_prints_public_key(
    name: Seq<char>,
    s: SettingsView,
    disk: Set<Seq<char>>,
    out: Surroundings,
)
    requires
        initialized_on(disk, s),
    ensures
        run_command(CommandView::Show { key_name: name }, s, disk, out) == if disk.contains(
            pub_path_of(key_path_of(s, name)),
        ) {
            ended(disk, out.contents, Ok(()))
        } else {
            ended(disk, Seq::empty(), Err(ErrorView::KeyNotFound(name)))
        },
{
    reveal_with_fuel(run_on, 8);
}

/// `add` and `remove` of an existing key run `ssh-add <key path>` and
/// `ssh-add -d <key path>` once, with their output shown, and change
/// nothing on the disk.  The command succeeds when `ssh-add` does; when
/// `ssh-add` fails it finishes with `AgentOperationFailed`, and when it
/// cannot start, with `AgentNotRunning`; in both cases nothing is printed.
pub proof fn law_agent_runs_ssh_add_once(
    c: CommandView,
    s: SettingsView,
    disk: Set<Seq<char>>,
    out: Surroundings,
)
    requires
        c is Add || c is Remove,
        initialized_on(disk, s),
        disk.contains(
            key_path_of(
                s,
                match c {
                    CommandView::Add { key_name } => key_name,
                    CommandView::Remove { key_name } => key_name,
                    _ => Seq::empty(),
                },
            ),
        ),
    ensures
        ({
            let adding = c is Add;
            let name = match c {
                CommandView::Add { key_name } => key_name,
                CommandView::Remove { key_name } => key_name,
                _ => Seq::empty(),
            };
            let path = key_path_of(s, name);
            let program = ActionView::Run {
                program: "ssh-add"@,
                args: if adding {
                    seq![path]
                } else {
                    seq!["-d"@, path]
                },
                discard_output: false,
            };
            run_command(c, s, disk, out) == Outcome {
                disk,
                printed: if out.programs_start && out.programs_succeed {
                    if adding {
                        "Added key '"@ + name + "' to agent.\n"@
                    } else {
                        "Removed key '"@ + name + "' from agent.\n"@
                    }
                } else {
                    Seq::empty()
                },
                programs: seq![program],
                written: Map::empty(),
                result: Some(
                    if !out.programs_start {
                        Err(ErrorView::AgentNotRunning)
                    } else if out.programs_succeed {
                        Ok(())
                    } else {
                        Err(
                            ErrorView::AgentOperationFailed(
                                if adding {
                                    "failed to add '"@ + name + "'"@
                                } else {
                                    "failed to remove '"@ + name + "'"@
                                },
                            ),
                        )
                    },
                ),
            }
        }),
{
    reveal_with_fuel(run_on, 8);
    let name = match c {
        CommandView::Add { key_name } => key_name,
        CommandView::Remove { key_name } => key_name,
        _ => Seq::empty(),
    };
    let program = agent_run(c is Add, key_path_of(s, name));
    assert(Seq::<ActionView>::empty().push(program) =~= seq![program]);
}

/// `destroy --yes` on an initialized home removes the home with all it
/// holds.
pub proof fn law_destroy_yes_removes_home(s: SettingsView, disk: Set<Seq<char>>, out: Surroundings)
    requires
        initialized_on(disk, s),
    ensures
        run_command(CommandView::Destroy { yes: true }, s, disk, out) == ended(
            without_tree(disk, s.home),
            "Destroyed RSKM_HOME.\n"@,
            Ok(()),
        ),
        s.home.len() > 0 ==> !initialized_on(
            run_command(CommandView::Destroy { yes: true }, s, disk, out).disk,
            s,
        ),
        s.home.len() > 0 ==> !run_command(CommandView::Destroy { yes: true }, s, disk, out).disk.contains(
            keys_dir_of(s),
        ),
{
    reveal_with_fuel(run_on, 8);
    if s.home.len() > 0 {
        lemma_home_leads_to_keys_dir(s);
        assert(leads_to(s.home, s.home));
    }
}

/// `destroy` without `--yes` on an initialized home removes it only when the
/// user's answer agrees, and else changes nothing; either way it succeeds.
pub proof fn law_destroy_asks_first(s: SettingsView, disk: Set<Seq<char>>, out: Surroundings)
    requires
        initialized_on(disk, s),
    ensures
        run_command(CommandView::Destroy { yes: false }, s, disk, out) == if is_confirmation(
            out.answer,
        ) {
            ended(
                without_tree(disk, s.home),
                "Destroyed RSKM_HOME.\n"@,
                Ok(()),
            )
        } else {
            ended(disk, "Aborted.\n"@, Ok(()))
        },
{
    reveal_with_fuel(run_on, 8);
}

/// `destroy` on a home that is not initialized changes nothing.
pub proof fn law_destroy_without_home_changes_nothing(
    yes: bool,
    s: SettingsView,
    disk: Set<Seq<char>>,
    out: Surroundings,
)
    requires
        !initialized_on(disk, s),
    ensures
        run_command(CommandView::Destroy { yes }, s, disk, out) == ended(
            disk,
            "Nothing to do: RSKM_HOME dir is not initialized\n"@,
            Ok(()),
        ),
{
    reveal_with_fuel(run_on, 8);
}

/// The `ssh-keygen` arguments of a key type select it with `-t` and its
/// name, followed for ECDSA and RSA by `-b` and a key size; that name is
/// ASCII, its upper case names the same key type, and it is also the exact
/// name that configuration and `create` accept for that key type.
pub proof fn law_keygen_args_name_their_key_type(k: KeyTypes)
    ensures
        keygen_args(k)[0] == "-t"@,
        keygen_args(k).len() == 2 || (keygen_args(k).len() == 4 && keygen_args(k)[2] == "-b"@),
        all_ascii(keygen_args(k)[1]),
        upper_key_type(ascii_upper(keygen_args(k)[1])) == Some(k),
        key_type_named(keygen_args(k)[1]) == Some(
            match k {
                KeyTypes::ED25519 => key_types::KeyTypes::Ed25519,
                KeyTypes::ECDSA => key_types::KeyTypes::Ecdsa,
                KeyTypes::XMSS => key_types::KeyTypes::Xmss,
                KeyTypes::RSA => key_types::KeyTypes::Rsa,
            },
        ),
{
    reveal_strlit("ed25519");
    reveal_strlit("ecdsa");
    reveal_strlit("xmss");
    reveal_strlit("rsa");
    reveal_strlit("ED25519");
    reveal_strlit("ECDSA");
    reveal_strlit("XMSS");
    reveal_strlit("RSA");
    let name = keygen_args(k)[1];
    let upper = ascii_upper(name);
    match k {
        KeyTypes::ED25519 => {
            assert(upper =~= "ED25519"@);
            assert(name != "ecdsa"@ && name != "xmss"@ && name != "rsa"@);
        },
        KeyTypes::ECDSA => {
            assert(upper =~= "ECDSA"@);
            assert(upper != "ED25519"@);
            assert(name != "ed25519"@);
        },
        KeyTypes::XMSS => {
            assert(upper =~= "XMSS"@);
            assert(upper != "ED25519"@ && upper != "ECDSA"@);
            assert(name != "ed25519"@ && name != "ecdsa"@);
        },
        KeyTypes::RSA => {
            assert(upper =~= "RSA"@);
            assert(upper != "ED25519"@ && upper != "ECDSA"@ && upper != "XMSS"@);
            assert(name != "ed25519"@ && name != "ecdsa"@ && name != "xmss"@);
        },
    }
}

/// The lines of `keys` are its first key's line followed by the lines of
/// the rest.
proof fn lemma_key_lines_first(keys: Seq<Seq<char>>)
    requires
        keys.len() > 0,
    ensures
        key_lines(keys) == keys[0] + "\n"@ + key_lines(keys.drop_first()),
    decreases keys.len(),
{
    if keys.len() == 1 {
        assert(keys.drop_last() =~= Seq::<Seq<char>>::empty());
        assert(keys.drop_first() =~= Seq::<Seq<char>>::empty());
        assert(key_lines(keys) =~= keys[0] + "\n"@ + key_lines(keys.drop_first()));
    } else {
        lemma_key_lines_first(keys.drop_last());
        assert(keys.drop_last().drop_first() =~= keys.drop_first().drop_last());
        assert(keys.drop_first().last() == keys.last());
        assert(keys.drop_last()[0] == keys[0]);
        assert(key_lines(keys) =~= keys[0] + "\n"@ + key_lines(keys.drop_first()));
    }
}

/// The listing prints `No keys found.` when there is no key, and otherwise
/// each key on a line of its own, in the order given: the first key's line
/// followed by the listing of the others.
pub proof fn law_listing_prints_each_key_on_its_own_line(keys: Seq<Seq<char>>)
    ensures
        keys.len() == 0 ==> listing_text(keys) == "No keys found.\n"@,
        keys.len() == 1 ==> listing_text(keys) == keys[0] + "\n"@,
        keys.len() > 1 ==> listing_text(keys) == keys[0] + "\n"@ + listing_text(keys.drop_first()),
{
    if keys.len() > 0 {
        lemma_key_lines_first(keys);
        if keys.len() == 1 {
            assert(keys.drop_first() =~= Seq::<Seq<char>>::empty());
            assert(listing_text(keys) =~= keys[0] + "\n"@);
        }
    }
}

/// `init` writes the configuration file with exactly the text the settings
/// were serialized to.
pub proof fn law_init_writes_serialized_settings(e: ExecutionView, text: Seq<char>)
    requires
        e.command is Init,
        e.stage == Stage::InitSerialize,
    ensures
        next_step(e, EventView::Serialized(text)) == (
            Stage::InitWrite,
            ActionView::WriteFile { path: path_join(e.settings.home, "rskm.toml"@), contents: text },
        ),
{
}

/// When `ssh-add` cannot be started, `add` and `remove` finish with
/// `AgentNotRunning` and print nothing; when `ssh-keygen` cannot be started,
/// `create` finishes with `KeygenFailed`.
pub proof fn law_program_that_cannot_start_fails_the_command(e: ExecutionView)
    ensures
        (e.command is Add || e.command is Remove) && e.stage == Stage::AgentRun ==> next_step(
            e,
            EventView::SpawnFailed,
        ) == (Stage::Finished, ActionView::Finish(Err(ErrorView::AgentNotRunning))),
        e.command is Create && e.stage == Stage::CreateKeygen ==> next_step(
            e,
            EventView::SpawnFailed,
        ) == (Stage::Finished, ActionView::Finish(Err(ErrorView::KeygenFailed))),
{
}

/// The home is `RSKM_HOME` whenever it is set, whatever the user's home
/// directory; else `.rskm` joined to the user's home directory; with
/// neither there is none.
pub proof fn law_home_prefers_rskm_home(env_home: Option<Seq<char>>, user_home: Option<Seq<char>>)
    ensures
        env_home is Some ==> chosen_home(env_home, user_home) == env_home,
        env_home is None && user_home is Some ==> chosen_home(env_home, user_home) == Some(
            path_join(user_home->0, ".rskm"@),
        ),
        env_home is None && user_home is None ==> chosen_home(env_home, user_home) is None,
{
}

} // verus!
