use std::collections::{BTreeMap, BTreeSet};

use rskm::cli::{Action, Commands, Event, Execution, Stage};
use rskm::config::RskmSettings;
use rskm::errors::RskmError;

const HOME: &str = "/home/user/.rskm";
const KEYS: &str = "/home/user/.rskm/keys";

/// A disk, a user and the outside programs, kept in memory.
struct World {
    dirs: BTreeSet<String>,
    files: BTreeMap<String, String>,
    printed: String,
    answer: String,
    keygen_ok: bool,
    agent_running: bool,
    agent_ok: bool,
    runs: Vec<(String, Vec<String>, bool)>,
    prompts: Vec<String>,
}

fn not_found(path: &str) -> std::io::Error {
    std::io::Error::new(std::io::ErrorKind::NotFound, format!("no such file: {}", path))
}

fn parent(path: &str) -> &str {
    match path.rfind('/') {
        Some(0) => "/",
        Some(i) => &path[..i],
        None => "",
    }
}

impl World {
    /// Only the home directory exists, as a fresh temporary directory does.
    fn with_home() -> World {
        let mut dirs = BTreeSet::new();
        dirs.insert(HOME.to_string());
        World {
            dirs,
            files: BTreeMap::new(),
            printed: String::new(),
            answer: String::new(),
            keygen_ok: true,
            agent_running: true,
            agent_ok: true,
            runs: Vec::new(),
            prompts: Vec::new(),
        }
    }

    fn has(&self, path: &str) -> bool {
        self.dirs.contains(path) || self.files.contains_key(path)
    }

    fn write(&mut self, path: &str, contents: &str) {
        self.files.insert(path.to_string(), contents.to_string());
    }

    fn is_initialized(&self) -> bool {
        self.has(HOME) && self.has(KEYS)
    }

    fn answer(&mut self, action: Action, settings: &RskmSettings) -> Event {
        match action {
            Action::CheckExists(p) => Event::Exists(self.has(&p)),
            Action::CreateDirAll(p) => {
                let mut cur = p.clone();
                while !cur.is_empty() && cur != "/" {
                    self.dirs.insert(cur.clone());
                    cur = parent(&cur).to_string();
                }
                Event::Done
            }
            Action::SerializeSettings => Event::Serialized(format!(
                "default_key_type = \"{}\"\n",
                settings.default_key_type()
            )),
            Action::WriteFile { path, contents } => {
                if self.dirs.contains(parent(&path)) {
                    self.files.insert(path, contents);
                    Event::Done
                } else {
                    Event::Failed(not_found(&path))
                }
            }
            Action::Run { program, args, discard_output } => {
                self.runs.push((program.clone(), args.clone(), discard_output));
                if program == "ssh-keygen" {
                    if self.keygen_ok {
                        let path = args[3].clone();
                        self.files.insert(path.clone(), "private".to_string());
                        self.files.insert(format!("{}.pub", path), "public".to_string());
                    }
                    Event::Exited(self.keygen_ok)
                } else if !self.agent_running {
                    Event::SpawnFailed
                } else {
                    Event::Exited(self.agent_ok)
                }
            }
            Action::RenameFile { from, to } => match self.files.remove(&from) {
                Some(c) => {
                    self.files.insert(to, c);
                    Event::Done
                }
                None => Event::Failed(not_found(&from)),
            },
            Action::RemoveFile(p) => match self.files.remove(&p) {
                Some(_) => Event::Done,
                None => Event::Failed(not_found(&p)),
            },
            Action::ListDir(p) => {
                if !self.dirs.contains(&p) {
                    return Event::Failed(not_found(&p));
                }
                let mut names = Vec::new();
                for f in self.files.keys().chain(self.dirs.iter()) {
                    if parent(f) == p {
                        names.push(f[p.len() + 1..].to_string());
                    }
                }
                Event::Listing(names)
            }
            Action::ReadFile(p) => match self.files.get(&p) {
                Some(c) => Event::Contents(c.clone()),
                None => Event::Failed(not_found(&p)),
            },
            Action::Prompt(q) => {
                self.prompts.push(q);
                Event::Answer(self.answer.clone())
            }
            Action::RemoveDirAll(p) => {
                let prefix = format!("{}/", p);
                self.dirs.retain(|d| *d != p && !d.starts_with(&prefix));
                self.files.retain(|f, _| !f.starts_with(&prefix));
                Event::Done
            }
            Action::Print(t) => {
                self.printed.push_str(&t);
                Event::Done
            }
            Action::Finish(_) => panic!("a finished command asks for nothing"),
        }
    }
}

/// Runs a command to its end against the world.
fn execute(command: Commands, settings: &RskmSettings, world: &mut World) -> Result<(), RskmError> {
    let (mut exec, mut action) = Execution::start(command, settings);
    loop {
        if let Action::Finish(r) = action {
            assert_eq!(exec.stage(), Stage::Finished);
            return r;
        }
        let event = world.answer(action, settings);
        assert!(exec.waits_for(&event));
        action = exec.step(event);
    }
}

fn settings() -> RskmSettings {
    RskmSettings::new(HOME.to_string(), None)
}

fn setup_settings(world: &mut World) -> RskmSettings {
    let settings = settings();
    execute(Commands::Init, &settings, world).unwrap();
    settings
}

fn key(name: &str) -> String {
    format!("{}/{}", KEYS, name)
}

// ── init ─────────────────────────────────────────────────────────────────

#[test]
fn test_init_when_not_initialized() {
    let mut world = World::with_home();
    let settings = settings();

    assert!(!world.is_initialized());
    execute(Commands::Init, &settings, &mut world).unwrap();
    assert!(world.is_initialized());
    assert_eq!(
        world.files.get("/home/user/.rskm/rskm.toml").map(|s| s.as_str()),
        Some("default_key_type = \"ed25519\"\n")
    );
    assert_eq!(world.printed, "Initialized RSKM_HOME\n");
}

#[test]
fn test_init_when_already_initialized() {
    let mut world = World::with_home();
    let settings = setup_settings(&mut world);
    world.printed.clear();

    // second init should be a no-op, not an error
    execute(Commands::Init, &settings, &mut world).unwrap();
    assert!(world.is_initialized());
    assert_eq!(world.printed, "Already initialized\n");
}

#[test]
fn test_init_creates_missing_home() {
    let mut world = World::with_home();
    world.dirs.clear();
    let settings = settings();
    execute(Commands::Init, &settings, &mut world).unwrap();
    assert!(world.is_initialized());
}

// ── not initialized guard ─────────────────────────────────────────────────

#[test]
fn test_commands_fail_when_not_initialized() {
    let mut world = World::with_home();
    let settings = settings();

    let cmds = vec![
        Commands::Create { key_name: "k".into(), key_type: None },
        Commands::Rename { key_name: "k".into(), new_name: "k2".into() },
        Commands::Delete { key_name: "k".into() },
        Commands::List,
        Commands::Show { key_name: "k".into() },
        Commands::Add { key_name: "k".into() },
        Commands::Remove { key_name: "k".into() },
    ];

    for cmd in cmds {
        let err = execute(cmd, &settings, &mut world).unwrap_err();
        assert!(matches!(err, RskmError::NotInitialized), "expected NotInitialized");
    }
    assert!(world.runs.is_empty());
    assert!(world.files.is_empty());
}

#[test]
fn test_guard_when_home_is_missing() {
    let mut world = World::with_home();
    world.dirs.clear();
    let settings = settings();
    let (mut exec, action) = Execution::start(Commands::List, &settings);
    assert!(matches!(action, Action::CheckExists(ref p) if p == HOME));
    let next = exec.step(Event::Exists(false));
    assert!(matches!(next, Action::Finish(Err(RskmError::NotInitialized))));
    assert!(exec.is_finished());
}

// ── create ────────────────────────────────────────────────────────────────

#[test]
fn test_create_key_already_exists() {
    let mut world = World::with_home();
    let settings = setup_settings(&mut world);
    world.write(&key("mykey"), "");

    let err = execute(
        Commands::Create { key_name: "mykey".into(), key_type: None },
        &settings,
        &mut world,
    )
    .unwrap_err();

    assert!(matches!(err, RskmError::KeyExists(n) if n == "mykey"));
    assert!(world.runs.is_empty());
}

#[test]
fn test_create_unknown_key_type() {
    let mut world = World::with_home();
    let settings = setup_settings(&mut world);

    let err = execute(
        Commands::Create { key_name: "mykey".into(), key_type: Some("dsa".into()) },
        &settings,
        &mut world,
    )
    .unwrap_err();

    assert!(matches!(err, RskmError::UnknownKeyType(t) if t == "dsa"));
    assert!(world.runs.is_empty());
}

#[test]
fn test_create_key_with_ssh_keygen() {
    let mut world = World::with_home();
    let settings = setup_settings(&mut world);
    world.printed.clear();

    execute(
        Commands::Create { key_name: "testkey".into(), key_type: Some("ed25519".into()) },
        &settings,
        &mut world,
    )
    .unwrap();

    assert!(world.has(&key("testkey")));
    assert!(world.has(&key("testkey.pub")));
    assert_eq!(world.runs.len(), 1);
    let (program, args, quiet) = &world.runs[0];
    assert_eq!(program, "ssh-keygen");
    assert_eq!(args, &vec!["-t", "ed25519", "-f", "/home/user/.rskm/keys/testkey", "-N", ""]);
    assert!(*quiet);
    assert_eq!(world.printed, "Created key 'testkey' (ed25519)\n");
}

#[test]
fn test_create_uses_default_key_type() {
    let mut world = World::with_home();
    let settings = RskmSettings::new(HOME.to_string(), Some("rsa".to_string()));
    execute(Commands::Init, &settings, &mut world).unwrap();
    world.printed.clear();
    execute(Commands::Create { key_name: "k".into(), key_type: None }, &settings, &mut world)
        .unwrap();
    assert_eq!(world.runs[0].1[1], "rsa");
    assert_eq!(world.printed, "Created key 'k' (rsa)\n");
}

#[test]
fn test_create_with_unknown_default_key_type() {
    let mut world = World::with_home();
    let settings = RskmSettings::new(HOME.to_string(), Some("RSA".to_string()));
    execute(Commands::Init, &settings, &mut world).unwrap();
    let err = execute(Commands::Create { key_name: "k".into(), key_type: None }, &settings, &mut world)
        .unwrap_err();
    assert!(matches!(err, RskmError::UnknownKeyType(t) if t == "RSA"));
}

#[test]
fn test_create_keygen_failure() {
    let mut world = World::with_home();
    let settings = setup_settings(&mut world);
    world.keygen_ok = false;
    let err = execute(
        Commands::Create { key_name: "k".into(), key_type: Some("ecdsa".into()) },
        &settings,
        &mut world,
    )
    .unwrap_err();
    assert!(matches!(err, RskmError::KeygenFailed));
}

#[test]
fn test_create_keygen_not_startable() {
    let settings = settings();
    let (mut exec, _) = Execution::start(
        Commands::Create { key_name: "k".into(), key_type: None },
        &settings,
    );
    exec.step(Event::Exists(true));
    exec.step(Event::Exists(true));
    let run = exec.step(Event::Exists(false));
    assert!(matches!(run, Action::Run { .. }));
    let end = exec.step(Event::SpawnFailed);
    assert!(matches!(end, Action::Finish(Err(RskmError::KeygenFailed))));
}

// ── rename ────────────────────────────────────────────────────────────────

#[test]
fn test_rename_key_not_found() {
    let mut world = World::with_home();
    let settings = setup_settings(&mut world);

    let err = execute(
        Commands::Rename { key_name: "ghost".into(), new_name: "other".into() },
        &settings,
        &mut world,
    )
    .unwrap_err();

    assert!(matches!(err, RskmError::KeyNotFound(n) if n == "ghost"));
}

#[test]
fn test_rename_key_without_pub() {
    let mut world = World::with_home();
    let settings = setup_settings(&mut world);
    world.write(&key("oldkey"), "private");
    world.printed.clear();

    execute(
        Commands::Rename { key_name: "oldkey".into(), new_name: "newkey".into() },
        &settings,
        &mut world,
    )
    .unwrap();

    assert!(!world.has(&key("oldkey")));
    assert!(world.has(&key("newkey")));
    assert_eq!(world.printed, "Renamed key 'oldkey' to 'newkey'\n");
}

#[test]
fn test_rename_key_with_pub() {
    let mut world = World::with_home();
    let settings = setup_settings(&mut world);
    world.write(&key("oldkey"), "private");
    world.write(&key("oldkey.pub"), "public");

    execute(
        Commands::Rename { key_name: "oldkey".into(), new_name: "newkey".into() },
        &settings,
        &mut world,
    )
    .unwrap();

    assert!(!world.has(&key("oldkey")));
    assert!(!world.has(&key("oldkey.pub")));
    assert!(world.has(&key("newkey")));
    assert!(world.has(&key("newkey.pub")));
    assert_eq!(world.files.get(&key("newkey.pub")).map(|s| s.as_str()), Some("public"));
}

#[test]
fn test_rename_io_failure() {
    let settings = settings();
    let (mut exec, _) = Execution::start(
        Commands::Rename { key_name: "a".into(), new_name: "b".into() },
        &settings,
    );
    exec.step(Event::Exists(true));
    exec.step(Event::Exists(true));
    let act = exec.step(Event::Exists(true));
    assert!(matches!(act, Action::RenameFile { ref from, ref to }
        if from == "/home/user/.rskm/keys/a" && to == "/home/user/.rskm/keys/b"));
    let end = exec.step(Event::Failed(std::io::Error::new(std::io::ErrorKind::PermissionDenied, "denied")));
    match end {
        Action::Finish(Err(RskmError::Io(e))) => {
            assert_eq!(e.kind(), std::io::ErrorKind::PermissionDenied)
        }
        _ => panic!("expected an IO error"),
    }
}

// ── delete ────────────────────────────────────────────────────────────────

#[test]
fn test_delete_key_not_found() {
    let mut world = World::with_home();
    let settings = setup_settings(&mut world);

    let err =
        execute(Commands::Delete { key_name: "ghost".into() }, &settings, &mut world).unwrap_err();
    assert!(matches!(err, RskmError::KeyNotFound(n) if n == "ghost"));
}

#[test]
fn test_delete_key_without_pub() {
    let mut world = World::with_home();
    let settings = setup_settings(&mut world);
    world.write(&key("mykey"), "private");
    world.printed.clear();

    execute(Commands::Delete { key_name: "mykey".into() }, &settings, &mut world).unwrap();

    assert!(!world.has(&key("mykey")));
    assert_eq!(world.printed, "Deleted key 'mykey'\n");
}

#[test]
fn test_delete_key_with_pub() {
    let mut world = World::with_home();
    let settings = setup_settings(&mut world);
    world.write(&key("mykey"), "private");
    world.write(&key("mykey.pub"), "public");

    execute(Commands::Delete { key_name: "mykey".into() }, &settings, &mut world).unwrap();

    assert!(!world.has(&key("mykey")));
    assert!(!world.has(&key("mykey.pub")));
}

#[test]
fn test_delete_dotted_name_removes_its_own_public_key() {
    // `ssh-keygen -f my.key` writes the public key to `my.key.pub`; the
    // unrelated file `my.pub` stays.
    let mut world = World::with_home();
    let settings = setup_settings(&mut world);
    world.write(&key("my.key"), "private");
    world.write(&key("my.key.pub"), "public");
    world.write(&key("my.pub"), "other");
    execute(Commands::Delete { key_name: "my.key".into() }, &settings, &mut world).unwrap();
    assert!(!world.has(&key("my.key")));
    assert!(!world.has(&key("my.key.pub")));
    assert!(world.has(&key("my.pub")));
}

#[test]
fn test_create_then_rename_and_show_dotted_name() {
    let mut world = World::with_home();
    let settings = setup_settings(&mut world);
    execute(Commands::Create { key_name: "a.b".into(), key_type: None }, &settings, &mut world)
        .unwrap();
    assert!(world.has(&key("a.b.pub")));
    execute(
        Commands::Rename { key_name: "a.b".into(), new_name: "c.d".into() },
        &settings,
        &mut world,
    )
    .unwrap();
    assert!(world.has(&key("c.d")));
    assert!(world.has(&key("c.d.pub")));
    assert!(!world.has(&key("a.b.pub")));
    world.printed.clear();
    execute(Commands::Show { key_name: "c.d".into() }, &settings, &mut world).unwrap();
    assert_eq!(world.printed, "public");
}

// ── list ──────────────────────────────────────────────────────────────────

#[test]
fn test_list_empty() {
    let mut world = World::with_home();
    let settings = setup_settings(&mut world);
    world.printed.clear();

    // should not error on empty keys dir
    execute(Commands::List, &settings, &mut world).unwrap();
    assert_eq!(world.printed, "No keys found.\n");
}

#[test]
fn test_list_excludes_pub_files() {
    let mut world = World::with_home();
    let settings = setup_settings(&mut world);
    world.write(&key("alpha"), "");
    world.write(&key("alpha.pub"), "");
    world.write(&key("beta"), "");
    world.printed.clear();

    execute(Commands::List, &settings, &mut world).unwrap();
    assert_eq!(world.printed, "alpha\nbeta\n");
}

#[test]
fn test_list_sorts_names() {
    let settings = settings();
    let (mut exec, _) = Execution::start(Commands::List, &settings);
    exec.step(Event::Exists(true));
    let act = exec.step(Event::Exists(true));
    assert!(matches!(act, Action::ListDir(ref p) if p == KEYS));
    let names = vec!["zeta".to_string(), "Beta".to_string(), "beta.pub".to_string(), "alpha".to_string()];
    let printed = exec.step(Event::Listing(names));
    assert!(matches!(printed, Action::Print(ref t) if t == "Beta\nalpha\nzeta\n"));
    let end = exec.step(Event::Done);
    assert!(matches!(end, Action::Finish(Ok(()))));
}

// ── show ──────────────────────────────────────────────────────────────────

#[test]
fn test_show_key_not_found() {
    let mut world = World::with_home();
    let settings = setup_settings(&mut world);

    let err =
        execute(Commands::Show { key_name: "ghost".into() }, &settings, &mut world).unwrap_err();
    assert!(matches!(err, RskmError::KeyNotFound(n) if n == "ghost"));
}

#[test]
fn test_show_key_success() {
    let mut world = World::with_home();
    let settings = setup_settings(&mut world);
    world.write(&key("mykey.pub"), "ssh-ed25519 AAAA...");
    world.printed.clear();

    execute(Commands::Show { key_name: "mykey".into() }, &settings, &mut world).unwrap();
    assert_eq!(world.printed, "ssh-ed25519 AAAA...");
}

// ── add / remove ──────────────────────────────────────────────────────────

#[test]
fn test_add_key_not_found() {
    let mut world = World::with_home();
    let settings = setup_settings(&mut world);

    let err =
        execute(Commands::Add { key_name: "ghost".into() }, &settings, &mut world).unwrap_err();
    assert!(matches!(err, RskmError::KeyNotFound(n) if n == "ghost"));
}

#[test]
fn test_remove_key_not_found() {
    let mut world = World::with_home();
    let settings = setup_settings(&mut world);

    let err =
        execute(Commands::Remove { key_name: "ghost".into() }, &settings, &mut world).unwrap_err();
    assert!(matches!(err, RskmError::KeyNotFound(n) if n == "ghost"));
}

#[test]
fn test_add_and_remove_run_ssh_add() {
    let mut world = World::with_home();
    let settings = setup_settings(&mut world);
    world.write(&key("mykey"), "private");
    world.printed.clear();

    execute(Commands::Add { key_name: "mykey".into() }, &settings, &mut world).unwrap();
    execute(Commands::Remove { key_name: "mykey".into() }, &settings, &mut world).unwrap();
    assert_eq!(world.runs[0].0, "ssh-add");
    assert_eq!(world.runs[0].1, vec![key("mykey")]);
    assert!(!world.runs[0].2);
    assert_eq!(world.runs[1].1, vec!["-d".to_string(), key("mykey")]);
    assert_eq!(world.printed, "Added key 'mykey' to agent.\nRemoved key 'mykey' from agent.\n");
}

#[test]
fn test_agent_errors() {
    let mut world = World::with_home();
    let settings = setup_settings(&mut world);
    world.write(&key("mykey"), "private");

    world.agent_ok = false;
    let err = execute(Commands::Add { key_name: "mykey".into() }, &settings, &mut world).unwrap_err();
    assert!(matches!(err, RskmError::AgentOperationFailed(ref m) if m == "failed to add 'mykey'"));
    let err =
        execute(Commands::Remove { key_name: "mykey".into() }, &settings, &mut world).unwrap_err();
    assert!(matches!(err, RskmError::AgentOperationFailed(ref m) if m == "failed to remove 'mykey'"));

    world.agent_running = false;
    let err = execute(Commands::Add { key_name: "mykey".into() }, &settings, &mut world).unwrap_err();
    assert!(matches!(err, RskmError::AgentNotRunning));
}

// ── destroy ───────────────────────────────────────────────────────────────

#[test]
fn test_destroy_when_not_initialized() {
    let mut world = World::with_home();
    let settings = settings();

    // should return Ok without doing anything
    execute(Commands::Destroy { yes: true }, &settings, &mut world).unwrap();
    assert!(world.has(HOME));
    assert_eq!(world.printed, "Nothing to do: RSKM_HOME dir is not initialized\n");
}

#[test]
fn test_destroy_with_yes_flag() {
    let mut world = World::with_home();
    let settings = setup_settings(&mut world);

    execute(Commands::Destroy { yes: true }, &settings, &mut world).unwrap();

    assert!(!world.has(HOME));
    assert!(world.prompts.is_empty());
}

#[test]
fn test_destroy_asks_and_aborts() {
    let mut world = World::with_home();
    let settings = setup_settings(&mut world);
    world.write(&key("mykey"), "private");
    world.printed.clear();
    world.answer = "no".to_string();

    execute(Commands::Destroy { yes: false }, &settings, &mut world).unwrap();
    assert!(world.has(&key("mykey")));
    assert_eq!(
        world.prompts,
        vec!["Do you really want to delete RSKM_HOME? This cannot be undone! [y/N] ".to_string()]
    );
    assert_eq!(world.printed, "Aborted.\n");
}

#[test]
fn test_destroy_asks_and_confirms() {
    let mut world = World::with_home();
    let settings = setup_settings(&mut world);
    world.printed.clear();
    world.answer = "  Y \n".to_string();

    execute(Commands::Destroy { yes: false }, &settings, &mut world).unwrap();
    assert!(!world.has(HOME));
    assert_eq!(world.printed, "Destroyed RSKM_HOME.\n");
}

#[test]
fn test_confirms() {
    assert!(rskm::cli::confirms("y"));
    assert!(rskm::cli::confirms(" Y\t"));
    assert!(!rskm::cli::confirms("yes"));
    assert!(!rskm::cli::confirms(""));
    assert!(!rskm::cli::confirms("n"));
    assert!(rskm::cli::is_yes("y"));
    assert!(!rskm::cli::is_yes("Y"));
}
