use sampleshare::model::{Preset, Sample, SessionError};
use sampleshare::session::AppState;

fn sample(title: &str, by: &str) -> Sample {
    Sample { title: title.to_string(), url: format!("https://cdn/{}", title), uploaded_by: by.to_string() }
}

fn preset(title: &str, by: &str) -> Preset {
    Preset { title: title.to_string(), data: "AAEC".to_string(), uploaded_by: by.to_string() }
}

fn titles(v: &[Sample]) -> Vec<String> {
    v.iter().map(|s| s.title.clone()).collect()
}

#[test]
fn refresh_requires_login() {
    let mut st = AppState::new();
    let all = vec![sample("kick.wav", "bob")];
    assert_eq!(st.refresh_samples(&all).unwrap_err(), SessionError::NotAuthenticated);
    assert_eq!(st.refresh_presets(&vec![preset("p", "bob")]).unwrap_err(), SessionError::NotAuthenticated);
    assert!(st.cached_samples().is_empty());
}

#[test]
fn refresh_keeps_only_own_and_friends_items() {
    let mut st = AppState::new();
    st.login("alice".to_string(), Some(vec!["bob".to_string()]));
    let all = vec![sample("a1", "alice"), sample("c1", "carol"), sample("b1", "bob"), sample("b2", "bob")];
    let got = st.refresh_samples(&all).unwrap();
    assert_eq!(titles(&got), vec!["a1", "b1", "b2"]);
    assert_eq!(titles(&st.cached_samples()), vec!["a1", "b1", "b2"]);
    for s in &got {
        assert!(s.uploaded_by == "alice" || s.uploaded_by == "bob");
    }
}

#[test]
fn refresh_presets_filters_and_replaces_cache() {
    let mut st = AppState::new();
    st.login("alice".to_string(), None);
    assert!(st.cached_friends().is_empty());
    let got = st.refresh_presets(&vec![preset("mine", "alice"), preset("theirs", "bob")]).unwrap();
    assert_eq!(got.len(), 1);
    assert_eq!(got[0].title, "mine");
    let got = st.refresh_presets(&vec![]).unwrap();
    assert!(got.is_empty());
    assert!(st.cached_presets().is_empty());
}

#[test]
fn friend_removal_prunes_only_that_friend() {
    let mut st = AppState::new();
    st.login("alice".to_string(), Some(vec!["bob".to_string(), "carol".to_string()]));
    st.refresh_samples(&vec![sample("a", "alice"), sample("b", "bob"), sample("c", "carol")]).unwrap();
    st.refresh_presets(&vec![preset("pb", "bob"), preset("pc", "carol")]).unwrap();
    st.on_friend_removed(&"bob".to_string());
    assert_eq!(st.cached_friends(), vec!["carol".to_string()]);
    assert_eq!(titles(&st.cached_samples()), vec!["a", "c"]);
    let presets = st.cached_presets();
    assert_eq!(presets.len(), 1);
    assert_eq!(presets[0].title, "pc");
}

#[test]
fn repeated_adds_then_one_remove_leave_no_copy() {
    let mut st = AppState::new();
    st.login("alice".to_string(), Some(vec![]));
    st.on_friend_added("bob".to_string());
    st.on_friend_added("bob".to_string());
    st.on_friend_added("carol".to_string());
    assert_eq!(st.cached_friends().len(), 3);
    st.on_friend_removed(&"bob".to_string());
    assert_eq!(st.cached_friends(), vec!["carol".to_string()]);
}

#[test]
fn friend_added_while_logged_out_is_ignored() {
    let mut st = AppState::new();
    st.on_friend_added("bob".to_string());
    assert!(st.cached_friends().is_empty());
}

#[test]
fn alice_and_bob_share_then_unfriend() {
    let mut st = AppState::new();
    st.login("alice".to_string(), Some(vec![]));
    st.on_friend_added("bob".to_string());
    assert_eq!(st.cached_friends(), vec!["bob".to_string()]);
    let remote = vec![sample("kick.wav", "bob")];
    let seen = st.refresh_samples(&remote).unwrap();
    assert_eq!(titles(&seen), vec!["kick.wav"]);
    st.on_friend_removed(&"bob".to_string());
    assert!(titles(&st.cached_samples()).iter().all(|t| t != "kick.wav"));
    assert!(st.cached_friends().is_empty());
}

#[test]
fn upload_echo_appends_own_sample() {
    let mut st = AppState::new();
    assert_eq!(st.new_sample("t".to_string(), "u".to_string()).unwrap_err(), SessionError::NotAuthenticated);
    st.login("alice".to_string(), None);
    let s = st.new_sample("snare.wav".to_string(), "https://x/snare".to_string()).unwrap();
    assert_eq!(s.uploaded_by, "alice");
    assert!(st.record_sample_upload(s));
    assert_eq!(titles(&st.cached_samples()), vec!["snare.wav"]);
    assert!(!st.record_sample_upload(sample("x", "mallory")));
    assert_eq!(st.cached_samples().len(), 1);
    assert!(st.record_preset_upload(preset("pad", "alice")));
    assert_eq!(st.cached_presets().len(), 1);
}

#[test]
fn logout_clears_identity_and_caches_but_not_library() {
    let mut st = AppState::new();
    st.set_directory("/music".to_string(), &vec!["a.mp3".to_string(), "notes.txt".to_string()]);
    st.login("alice".to_string(), Some(vec!["bob".to_string()]));
    st.refresh_samples(&vec![sample("b", "bob")]).unwrap();
    st.logout();
    assert!(st.current_user().is_none());
    assert_eq!(st.require_user().unwrap_err(), SessionError::NotAuthenticated);
    assert!(st.cached_friends().is_empty());
    assert!(st.cached_samples().is_empty());
    assert!(st.cached_presets().is_empty());
    assert_eq!(st.directory(), Some("/music".to_string()));
    assert_eq!(st.cached_songs().len(), 1);
}

#[test]
fn cache_friends_drops_items_of_former_friends() {
    let mut st = AppState::new();
    st.login("alice".to_string(), Some(vec!["bob".to_string()]));
    st.refresh_samples(&vec![sample("b", "bob"), sample("a", "alice")]).unwrap();
    st.cache_friends(vec!["carol".to_string()]);
    assert_eq!(titles(&st.cached_samples()), vec!["a"]);
    assert_eq!(st.cached_friends(), vec!["carol".to_string()]);
}
