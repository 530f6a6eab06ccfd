use user_store::{DataStore, Failure, Fault, ReadStep, User, WriteStep};

/// A directory held in memory: file path and text, plus every path touched.
struct Dir {
    files: Vec<(String, String)>,
    touched: Vec<String>,
}

impl Dir {
    fn new() -> Dir {
        Dir { files: Vec::new(), touched: Vec::new() }
    }

    fn get(&self, path: &str) -> Option<String> {
        self.files.iter().find(|(p, _)| p == path).map(|(_, t)| t.clone())
    }

    fn put(&mut self, path: &str, text: &str) {
        self.files.retain(|(p, _)| p != path);
        self.files.push((path.to_string(), text.to_string()));
    }
}

fn encode(user: &User) -> Result<String, String> {
    let mut m = serde_json::Map::new();
    m.insert("name".to_string(), serde_json::Value::String(user.name.clone()));
    m.insert("age".to_string(), serde_json::Value::from(user.age));
    serde_json::to_string(&serde_json::Value::Object(m)).map_err(|e| e.to_string())
}

fn decode(text: &str) -> Result<User, String> {
    let v: serde_json::Value = serde_json::from_str(text).map_err(|e| e.to_string())?;
    let name = v.get("name").and_then(|n| n.as_str()).ok_or("missing name")?;
    let age = v.get("age").and_then(|a| a.as_u64()).ok_or("missing age")?;
    let age = u16::try_from(age).map_err(|e| e.to_string())?;
    Ok(User { name: name.to_string(), age })
}

fn run_read(store: &DataStore, dir: &mut Dir, entry: &str) -> Result<Result<User, String>, Fault> {
    let mut step = store.read(entry);
    loop {
        step = match step {
            ReadStep::Search(p) => {
                dir.touched.push(p.clone());
                let found = dir.get(&p).is_some();
                ReadStep::searched(p, Ok(found))
            }
            ReadStep::Load(p) => {
                dir.touched.push(p.clone());
                ReadStep::loaded(dir.get(&p).ok_or("vanished".to_string()))
            }
            ReadStep::Decode(t) => ReadStep::decoded(decode(&t)),
            ReadStep::Done(outcome) => return outcome,
        }
    }
}

fn run_write(store: &DataStore, dir: &mut Dir, entry: &str, user: User) -> Result<Result<(), String>, Fault> {
    let mut step = store.write(entry, user);
    loop {
        step = match step {
            WriteStep::Encode(p, u) => WriteStep::encoded(p, encode(&u)),
            WriteStep::Store(p, t) => {
                dir.touched.push(p.clone());
                dir.put(&p, &t);
                WriteStep::stored(Ok(()))
            }
            WriteStep::Done(outcome) => return outcome,
        }
    }
}

fn open(base: &str) -> DataStore {
    DataStore::new(Ok(base.to_string())).ok().unwrap()
}

fn alice() -> User {
    User { name: "Alice".to_string(), age: 30 }
}

#[test]
fn parse_entry_accepts_single_segments() {
    let store = open("/data");
    for key in ["alice", "...", ".hidden", "a b", "a\\b", "C:", "x.json", "ünï"] {
        let v = store.parse_entry(key);
        assert!(v.is_some(), "{key}");
        assert_eq!(v.unwrap().as_str(), key);
    }
}

#[test]
fn parse_entry_rejects_unsafe_keys() {
    let store = open("/data");
    for key in ["", ".", "..", "a/b", "../secret", "/etc/passwd", "/", "a/", "./a", "a//", "//"] {
        assert!(store.parse_entry(key).is_none(), "{key}");
    }
}

#[test]
fn new_keeps_the_canonical_base() {
    let store = open("/srv/users");
    match store.read("bob") {
        ReadStep::Search(p) => assert_eq!(p, "/srv/users/bob"),
        other => panic!("{other:?}"),
    }
}

#[test]
fn new_on_root_joins_without_double_separator() {
    let store = open("/");
    match store.read("bob") {
        ReadStep::Search(p) => assert_eq!(p, "/bob"),
        other => panic!("{other:?}"),
    }
}

#[test]
fn new_fails_when_base_cannot_be_resolved() {
    match DataStore::new(Err("No such file or directory (os error 2)".to_string())) {
        Err(f) => {
            assert_eq!(f.context, "Failed to resolve base directory");
            assert_eq!(f.cause, "No such file or directory (os error 2)");
        }
        Ok(_) => panic!("store opened over a missing base"),
    }
}

#[test]
fn new_refuses_a_relative_base() {
    match DataStore::new(Ok("data/users".to_string())) {
        Err(f) => {
            assert_eq!(f.context, "Base directory is not an absolute path");
            assert_eq!(f.cause, "data/users");
        }
        Ok(_) => panic!("store opened over a relative base"),
    }
}

#[test]
fn scenario_alice() {
    let store = open("/base");
    let mut dir = Dir::new();
    assert!(matches!(run_write(&store, &mut dir, "alice", alice()), Ok(Ok(()))));
    assert_eq!(run_read(&store, &mut dir, "alice").ok().unwrap(), Ok(alice()));
    assert_eq!(run_read(&store, &mut dir, "bob").ok().unwrap(), Err("Entry not found".to_string()));
    assert_eq!(
        run_read(&store, &mut dir, "../alice").ok().unwrap(),
        Err("Received invalid entry".to_string())
    );
    let r = User { name: "R".to_string(), age: 1 };
    assert_eq!(
        run_write(&store, &mut dir, "a/b", r).ok().unwrap(),
        Err("Received invalid entry".to_string())
    );
    assert_eq!(dir.files.len(), 1);
    assert_eq!(dir.files[0].0, "/base/alice");
}

#[test]
fn round_trip_keeps_the_record() {
    let store = open("/base");
    let mut dir = Dir::new();
    let u = User { name: "Zoë \"Z\" Quote\n".to_string(), age: 65535 };
    assert!(matches!(run_write(&store, &mut dir, "zoe", u.clone()), Ok(Ok(()))));
    assert_eq!(run_read(&store, &mut dir, "zoe").ok().unwrap(), Ok(u));
}

#[test]
fn writing_twice_overwrites() {
    let store = open("/base");
    let mut dir = Dir::new();
    run_write(&store, &mut dir, "alice", User { name: "Old".to_string(), age: 99 }).ok().unwrap().unwrap();
    run_write(&store, &mut dir, "alice", alice()).ok().unwrap().unwrap();
    run_write(&store, &mut dir, "alice", alice()).ok().unwrap().unwrap();
    assert_eq!(dir.files.len(), 1);
    assert_eq!(run_read(&store, &mut dir, "alice").ok().unwrap(), Ok(alice()));
}

#[test]
fn never_written_key_is_not_found() {
    let store = open("/base");
    let mut dir = Dir::new();
    run_write(&store, &mut dir, "alice", alice()).ok().unwrap().unwrap();
    assert_eq!(run_read(&store, &mut dir, "alice2").ok().unwrap(), Err("Entry not found".to_string()));
}

#[test]
fn invalid_keys_touch_nothing() {
    let store = open("/base");
    let mut dir = Dir::new();
    for key in ["../secret", "/etc/passwd", ""] {
        assert_eq!(
            run_read(&store, &mut dir, key).ok().unwrap(),
            Err("Received invalid entry".to_string())
        );
        assert_eq!(
            run_write(&store, &mut dir, key, alice()).ok().unwrap(),
            Err("Received invalid entry".to_string())
        );
    }
    assert!(dir.touched.is_empty());
    assert!(dir.files.is_empty());
}

#[test]
fn read_steps_report_system_faults() {
    match ReadStep::searched("/b/k".to_string(), Err("denied".to_string())) {
        ReadStep::Done(Err(f)) => {
            assert_eq!(f.context, "Failed to search entry");
            assert_eq!(f.cause, "denied");
        }
        other => panic!("{other:?}"),
    }
    match ReadStep::loaded(Err("io".to_string())) {
        ReadStep::Done(Err(f)) => assert_eq!(f.context, "Failed to read from filesystem"),
        other => panic!("{other:?}"),
    }
    match ReadStep::decoded(Err("bad json".to_string())) {
        ReadStep::Done(Err(f)) => {
            assert_eq!(f.context, "Failed to deserialize data from filesystem");
            assert_eq!(f.cause, "bad json");
        }
        other => panic!("{other:?}"),
    }
}

#[test]
fn read_steps_go_on_when_things_work() {
    match ReadStep::searched("/b/k".to_string(), Ok(true)) {
        ReadStep::Load(p) => assert_eq!(p, "/b/k"),
        other => panic!("{other:?}"),
    }
    match ReadStep::searched("/b/k".to_string(), Ok(false)) {
        ReadStep::Done(Ok(Err(m))) => assert_eq!(m, "Entry not found"),
        other => panic!("{other:?}"),
    }
    match ReadStep::loaded(Ok("{}".to_string())) {
        ReadStep::Decode(t) => assert_eq!(t, "{}"),
        other => panic!("{other:?}"),
    }
    match ReadStep::decoded(Ok(alice())) {
        ReadStep::Done(Ok(Ok(u))) => assert_eq!(u, alice()),
        other => panic!("{other:?}"),
    }
}

#[test]
fn write_steps() {
    let store = open("/base");
    match store.write("alice", alice()) {
        WriteStep::Encode(p, u) => {
            assert_eq!(p, "/base/alice");
            assert_eq!(u, alice());
        }
        other => panic!("{other:?}"),
    }
    match WriteStep::encoded("/base/alice".to_string(), Ok("text".to_string())) {
        WriteStep::Store(p, t) => {
            assert_eq!(p, "/base/alice");
            assert_eq!(t, "text");
        }
        other => panic!("{other:?}"),
    }
    match WriteStep::encoded("/base/alice".to_string(), Err("boom".to_string())) {
        WriteStep::Done(Err(f)) => assert_eq!(f.context, "Failed to serialize data"),
        other => panic!("{other:?}"),
    }
    match WriteStep::stored(Err("disk full".to_string())) {
        WriteStep::Done(Err(f)) => {
            assert_eq!(f.context, "Failed to write serialized data to filesystem");
            assert_eq!(f.cause, "disk full");
        }
        other => panic!("{other:?}"),
    }
    assert!(matches!(WriteStep::stored(Ok(())), WriteStep::Done(Ok(Ok(())))));
}

#[test]
fn failure_messages() {
    let f = Fault { context: "Failed to search entry".to_string(), cause: "denied".to_string() };
    assert_eq!(f.message(), "Failed to search entry: denied");
    assert_eq!(Failure::from(f).message(), "Failed to search entry: denied");
    let r = Failure::from("Entry not found".to_string());
    assert!(matches!(r, Failure::Reject(_)));
    assert_eq!(r.message(), "Entry not found");
}

#[test]
fn clone_keeps_the_base() {
    let store = open("/base").clone();
    match store.read("k") {
        ReadStep::Search(p) => assert_eq!(p, "/base/k"),
        other => panic!("{other:?}"),
    }
}
