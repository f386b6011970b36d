use sampleshare::codec::{file_stem, preset_file_bytes, preset_for_upload};
use sampleshare::credentials::{check_registration, decide_login, login_user, new_user};
use sampleshare::friends::{check_friend_exists, edge_path, edge_write_outcome, friends_path, preset_path, removal_report, sample_path, user_path, AddStage, EdgeSide, FriendAddition, StoreAction};
use sampleshare::library::{extension, is_track_file, songs_from_listing};
use sampleshare::model::SessionError;
use sampleshare::records::{friend_names, is_null, presets_from_record, samples_from_record, Record};

fn text(s: &str) -> Record {
    Record::Text(s.to_string())
}

fn obj(entries: Vec<(&str, Record)>) -> Record {
    Record::Object(entries.into_iter().map(|(k, v)| (k.to_string(), v)).collect())
}

#[test]
fn samples_are_read_from_groups() {
    let r = obj(vec![
        ("kick.wav", obj(vec![("-N1", obj(vec![("title", text("kick.wav")), ("url", text("u1")), ("uploaded_by", text("bob"))]))])),
        ("broken", obj(vec![("-N2", obj(vec![("title", text("x"))]))])),
        ("flat", text("ignored")),
        ("snare.wav", obj(vec![("-N3", obj(vec![("url", text("u3")), ("uploaded_by", text("amy")), ("title", text("snare.wav"))]))])),
    ]);
    let s = samples_from_record(&r);
    assert_eq!(s.len(), 2);
    assert_eq!(s[0].title, "kick.wav");
    assert_eq!(s[0].url, "u1");
    assert_eq!(s[1].uploaded_by, "amy");
    assert!(samples_from_record(&Record::Null).is_empty());
}

#[test]
fn presets_are_read_from_groups() {
    let r = obj(vec![("pad", obj(vec![("-K", obj(vec![("title", text("pad")), ("data", text("AAEC")), ("uploaded_by", text("bob"))]))]))]);
    let p = presets_from_record(&r);
    assert_eq!(p.len(), 1);
    assert_eq!(p[0].data, "AAEC");
}

#[test]
fn friend_names_are_keys() {
    let r = obj(vec![("bob", obj(vec![("-K", Record::Bool(true))])), ("carol", Record::Bool(true))]);
    assert_eq!(friend_names(&r), vec!["bob".to_string(), "carol".to_string()]);
    assert!(friend_names(&Record::Null).is_empty());
    assert!(is_null(&Record::Null));
    assert!(!is_null(&r));
}

#[test]
fn login_failures_are_indistinguishable() {
    let missing = login_user(&Record::Null, "secret").unwrap_err();
    let user = new_user(&"alice".to_string(), "right").unwrap();
    let record = obj(vec![("-K", obj(vec![("username", text("alice")), ("password", text(&user.password))]))]);
    let wrong = login_user(&record, "wrong").unwrap_err();
    assert_eq!(missing, wrong);
    assert_eq!(missing, SessionError::InvalidCredential);
    assert_eq!(login_user(&record, "right"), Ok(true));
}

#[test]
fn unparsable_digest_is_invalid_credential() {
    let record = obj(vec![("-K", obj(vec![("password", text("not-a-digest"))]))]);
    assert_eq!(login_user(&record, "x").unwrap_err(), SessionError::InvalidCredential);
    assert_eq!(decide_login(Some(Some(true))), Ok(true));
    assert_eq!(decide_login(Some(Some(false))), Err(SessionError::InvalidCredential));
    assert_eq!(decide_login(Some(None)), Err(SessionError::InvalidCredential));
    assert_eq!(decide_login(None), Err(SessionError::InvalidCredential));
}

#[test]
fn registration_conflicts_on_existing_user() {
    let name = "alice".to_string();
    assert_eq!(check_registration(&name, &Ok(true)), Err(SessionError::Conflict("User 'alice' already exists.".to_string())));
    assert_eq!(check_registration(&name, &Ok(false)), Ok(()));
    assert_eq!(check_registration(&name, &Err("down".to_string())), Ok(()));
    let u = new_user(&name, "pw").unwrap();
    assert_eq!(u.username, "alice");
    assert!(u.friends.is_none());
    assert_ne!(u.password, "pw");
}

#[test]
fn store_paths() {
    assert_eq!(user_path("alice"), "users/alice");
    assert_eq!(friends_path("alice"), "users/alice/friends");
    assert_eq!(edge_path("alice", "bob"), "users/alice/friends/bob");
    assert_eq!(sample_path("kick.wav"), "songs/kick.wav");
    assert_eq!(preset_path("pad"), "presets/pad");
}

#[test]
fn adding_a_friend_checks_and_names_failing_side() {
    let bob = "bob".to_string();
    assert!(matches!(check_friend_exists(&bob, Err("io".to_string())), Err(SessionError::RemoteUnavailable(_))));
    assert_eq!(check_friend_exists(&bob, Ok(false)), Err(SessionError::NotFound("User 'bob' does not exist.".to_string())));
    assert_eq!(check_friend_exists(&bob, Ok(true)), Ok(()));
    assert_eq!(
        edge_write_outcome(EdgeSide::Mine, &bob, Err("timeout".to_string())),
        Err(SessionError::RemoteUnavailable("Failed to add 'bob' to your friends list: timeout".to_string()))
    );
    assert_eq!(
        edge_write_outcome(EdgeSide::Theirs, &bob, Err("timeout".to_string())),
        Err(SessionError::RemoteUnavailable("Failed to add yourself to 'bob's friends list: timeout".to_string()))
    );
    assert_eq!(edge_write_outcome(EdgeSide::Theirs, &bob, Ok(())), Ok(()));
}

#[test]
fn removal_reports_each_side() {
    let r = removal_report(&Ok(()), &Err("x".to_string()));
    assert!(r.mine_removed);
    assert!(!r.theirs_removed);
}

#[test]
fn track_extensions() {
    assert_eq!(extension("a.mp3"), Some("mp3".to_string()));
    assert_eq!(extension("a.b.flac"), Some("flac".to_string()));
    assert_eq!(extension(".wav"), None);
    assert_eq!(extension("noext"), None);
    assert_eq!(extension("x."), Some("".to_string()));
    assert!(is_track_file("song.wav"));
    assert!(!is_track_file("song.WAV"));
    assert!(!is_track_file("notes.txt"));
    let songs = songs_from_listing(&vec!["b.flac".to_string(), "c.txt".to_string(), "a.mp3".to_string()]);
    let names: Vec<String> = songs.into_iter().map(|s| s.title).collect();
    assert_eq!(names, vec!["b.flac".to_string(), "a.mp3".to_string()]);
}

#[test]
fn file_stems() {
    assert_eq!(file_stem("/home/u/presets/warm.fxp"), Some("warm".to_string()));
    assert_eq!(file_stem("pad"), Some("pad".to_string()));
    assert_eq!(file_stem("dir/.hidden"), Some(".hidden".to_string()));
    assert_eq!(file_stem("a/b.c.d"), Some("b.c".to_string()));
    assert_eq!(file_stem("presets/warm.fxp/"), Some("warm".to_string()));
    assert_eq!(file_stem("a/.."), None);
    assert_eq!(file_stem("/"), None);
    assert_eq!(file_stem(""), None);
}

#[test]
fn preset_upload_then_download_round_trips() {
    let bytes: Vec<u8> = vec![0, 1, 2, 250, 255, 10];
    let p = preset_for_upload("/tmp/warm.fxp", &bytes, &"alice".to_string()).unwrap();
    assert_eq!(p.title, "warm");
    assert_eq!(p.uploaded_by, "alice");
    assert_eq!(p.data, "AAEC+v8K");
    let record = obj(vec![("-K", obj(vec![("title", text("warm")), ("data", text(&p.data)), ("uploaded_by", text("alice"))]))]);
    assert_eq!(preset_file_bytes(&record, &"warm".to_string()).unwrap(), bytes);
}

#[test]
fn preset_download_errors() {
    let name = "warm".to_string();
    assert_eq!(
        preset_file_bytes(&Record::Null, &name),
        Err(SessionError::NotFound("Failed to fetch preset data for: warm".to_string()))
    );
    let bad = obj(vec![("-K", obj(vec![("data", text("%%%"))]))]);
    assert!(matches!(preset_file_bytes(&bad, &name), Err(SessionError::Decode(_))));
    assert!(matches!(preset_for_upload("/", &vec![1], &name), Err(SessionError::Io(_))));
}

#[test]
fn friend_addition_runs_lookup_then_both_writes() {
    let (mut add, first) = FriendAddition::new("alice".to_string(), "bob".to_string());
    assert!(matches!(first, StoreAction::Get(ref p) if p == "users/bob"));
    let next = add.on_lookup(Ok(true));
    assert!(matches!(next, StoreAction::SetTrue(ref p) if p == "users/alice/friends/bob"));
    assert_eq!(add.stage, AddStage::WriteMine);
    let next = add.on_mine_written(Ok(()));
    assert!(matches!(next, StoreAction::SetTrue(ref p) if p == "users/bob/friends/alice"));
    let last = add.on_theirs_written(Ok(()));
    assert!(matches!(last, StoreAction::Finish(Ok(()))));
    assert_eq!(add.stage, AddStage::Done);
}

#[test]
fn friend_addition_stops_before_writes_for_unknown_user() {
    let (mut add, _) = FriendAddition::new("alice".to_string(), "ghost".to_string());
    match add.on_lookup(Ok(false)) {
        StoreAction::Finish(Err(SessionError::NotFound(m))) => assert_eq!(m, "User 'ghost' does not exist."),
        other => panic!("unexpected {:?}", other),
    }
    assert_eq!(add.stage, AddStage::Done);
}

#[test]
fn friend_addition_reports_failing_second_write() {
    let (mut add, _) = FriendAddition::new("alice".to_string(), "bob".to_string());
    add.on_lookup(Ok(true));
    add.on_mine_written(Ok(()));
    match add.on_theirs_written(Err("503".to_string())) {
        StoreAction::Finish(Err(SessionError::RemoteUnavailable(m))) => {
            assert_eq!(m, "Failed to add yourself to 'bob's friends list: 503")
        }
        other => panic!("unexpected {:?}", other),
    }
}
