use vstd::prelude::*;
use crate::model::{Preset, PresetView, Sample, SampleView, SessionError, Song, presets_view, samples_view, songs_view, strings_view, opt_view};
use crate::library::{songs_from_listing, track_names};
use crate::playback::PlaybackController;
use crate::visibility::{
    drop_name, drop_presets_by, drop_samples_by, filter_visible_presets, filter_visible_samples,
    lemma_keep_all, lemma_keep_contains, names_without, presets_not_by, samples_not_by, visible,
    visible_presets, visible_samples,
};

verus! {

/// The state of one running session: who is logged in, the caches derived
/// from the remote store, the local library and the playback slot.
#[derive(Debug)]
pub struct AppState {
    pub logged_in_user: Option<String>,
    pub friends_cache: Vec<String>,
    pub sample_cache: Vec<Sample>,
    pub preset_cache: Vec<Preset>,
    pub directory_path: Option<String>,
    pub song_cache: Vec<Song>,
    pub player: PlaybackController,
}

/// Copies a list of names.
fn copy_names(v: &Vec<String>) -> (r: Vec<String>)
    ensures
        strings_view(r@) == strings_view(v@),
{
    let mut out: Vec<String> = Vec::new();
    let mut i: usize = 0;
    while i < v.len()
        invariant
            i <= v.len(),
            out@.len() == i,
            forall|k: int| 0 <= k < i ==> (#[trigger] out@[k])@ == v@[k]@,
        decreases v.len() - i,
    {
        out.push(v[i].clone());
        i = i + 1;
    }
    assert(strings_view(out@) =~= strings_view(v@));
    out
}

/// Copies a list of samples.
fn copy_samples(v: &Vec<Sample>) -> (r: Vec<Sample>)
    ensures
        samples_view(r@) == samples_view(v@),
{
    let mut out: Vec<Sample> = Vec::new();
    let mut i: usize = 0;
    while i < v.len()
        invariant
            i <= v.len(),
            out@.len() == i,
            forall|k: int| 0 <= k < i ==> (#[trigger] out@[k])@ == v@[k]@,
        decreases v.len() - i,
    {
        out.push(v[i].duplicate());
        i = i + 1;
    }
    assert(samples_view(out@) =~= samples_view(v@));
    out
}

/// Copies a list of presets.
fn copy_presets(v: &Vec<Preset>) -> (r: Vec<Preset>)
    ensures
        presets_view(r@) == presets_view(v@),
{
    let mut out: Vec<Preset> = Vec::new();
    let mut i: usize = 0;
    while i < v.len()
        invariant
            i <= v.len(),
            out@.len() == i,
            forall|k: int| 0 <= k < i ==> (#[trigger] out@[k])@ == v@[k]@,
        decreases v.len() - i,
    {
        out.push(v[i].duplicate());
        i = i + 1;
    }
    assert(presets_view(out@) =~= presets_view(v@));
    out
}

/// Copies a list of songs.
fn copy_songs(v: &Vec<Song>) -> (r: Vec<Song>)
    ensures
        songs_view(r@) == songs_view(v@),
{
    let mut out: Vec<Song> = Vec::new();
    let mut i: usize = 0;
    while i < v.len()
        invariant
            i <= v.len(),
            out@.len() == i,
            forall|k: int| 0 <= k < i ==> (#[trigger] out@[k])@ == v@[k]@,
        decreases v.len() - i,
    {
        out.push(v[i].duplicate());
        i = i + 1;
    }
    assert(songs_view(out@) =~= songs_view(v@));
    out
}

impl AppState {
    /// Every cached item is uploaded by the current identity or by a cached
    /// friend; with nobody logged in, the friend and item caches are empty.
    pub open spec fn wf(&self) -> bool {
        match self.logged_in_user {
            Some(me) => {
                &&& forall|i: int| 0 <= i < self.sample_cache@.len() ==>
                    visible(me@, strings_view(self.friends_cache@), #[trigger] self.sample_cache@[i].uploaded_by@)
                &&& forall|i: int| 0 <= i < self.preset_cache@.len() ==>
                    visible(me@, strings_view(self.friends_cache@), #[trigger] self.preset_cache@[i].uploaded_by@)
            },
            None => {
                &&& self.friends_cache@.len() == 0
                &&& self.sample_cache@.len() == 0
                &&& self.preset_cache@.len() == 0
            },
        }
    }

    /// A session with nobody logged in, empty caches, no library directory
    /// and no playback slot.
    pub fn new() -> (r: AppState)
        ensures
            r.wf(),
            r.logged_in_user.is_none(),
            r.friends_cache@.len() == 0,
            r.sample_cache@.len() == 0,
            r.preset_cache@.len() == 0,
            r.directory_path.is_none(),
            r.song_cache@.len() == 0,
            r.player.current.is_none(),
            r.player.title.is_none(),
    {
        AppState {
            logged_in_user: None,
            friends_cache: Vec::new(),
            sample_cache: Vec::new(),
            preset_cache: Vec::new(),
            directory_path: None,
            song_cache: Vec::new(),
            player: PlaybackController::new(),
        }
    }

    /// Sets the identity after a successful credential check. `friends` is
    /// the fetched friend list, or `None` when fetching it failed, which
    /// leaves the friend cache empty. The item caches start empty.
    pub fn login(&mut self, username: String, friends: Option<Vec<String>>)
        ensures
            final(self).wf(),
            opt_view(final(self).logged_in_user) == Some(username@),
            strings_view(final(self).friends_cache@) == (match friends {
                Some(f) => strings_view(f@),
                None => Seq::<Seq<char>>::empty(),
            }),
            final(self).sample_cache@.len() == 0,
            final(self).preset_cache@.len() == 0,
            final(self).directory_path == old(self).directory_path,
            final(self).song_cache == old(self).song_cache,
            final(self).player == old(self).player,
    {
        self.logged_in_user = Some(username);
        self.friends_cache = match friends {
            Some(f) => f,
            None => Vec::new(),
        };
        self.sample_cache = Vec::new();
        self.preset_cache = Vec::new();
        proof {
            if friends.is_none() {
                assert(strings_view(self.friends_cache@) =~= Seq::<Seq<char>>::empty());
            }
        }
    }

    /// Ends the session: clears the identity, the friend cache and both item
    /// caches. The library directory and playback belong to the device and stay.
    pub fn logout(&mut self)
        ensures
            final(self).wf(),
            final(self).logged_in_user.is_none(),
            final(self).friends_cache@.len() == 0,
            final(self).sample_cache@.len() == 0,
            final(self).preset_cache@.len() == 0,
            final(self).directory_path == old(self).directory_path,
            final(self).song_cache == old(self).song_cache,
            final(self).player == old(self).player,
    {
        self.logged_in_user = None;
        self.friends_cache = Vec::new();
        self.sample_cache = Vec::new();
        self.preset_cache = Vec::new();
    }

    /// The logged-in identity, if any.
    pub fn current_user(&self) -> (r: Option<String>)
        ensures
            opt_view(r) == opt_view(self.logged_in_user),
    {
        match &self.logged_in_user {
            Some(u) => Some(u.clone()),
            None => None,
        }
    }

    /// The logged-in identity, or `NotAuthenticated`.
    pub fn require_user(&self) -> (r: Result<String, SessionError>)
        ensures
            self.logged_in_user.is_none() ==> r == Err::<String, SessionError>(SessionError::NotAuthenticated),
            self.logged_in_user.is_some() ==> r is Ok && r->Ok_0@ == self.logged_in_user->Some_0@,
    {
        match &self.logged_in_user {
            Some(u) => Ok(u.clone()),
            None => Err(SessionError::NotAuthenticated),
        }
    }

    /// Replaces the friend cache with a freshly fetched list, dropping cached
    /// items whose uploader is no longer visible.
    pub fn cache_friends(&mut self, friends: Vec<String>)
        requires
            old(self).wf(),
            old(self).logged_in_user.is_some(),
        ensures
            final(self).wf(),
            strings_view(final(self).friends_cache@) == strings_view(friends@),
            final(self).logged_in_user == old(self).logged_in_user,
            samples_view(final(self).sample_cache@) == visible_samples(
                samples_view(old(self).sample_cache@), old(self).logged_in_user->Some_0@, strings_view(friends@)),
            presets_view(final(self).preset_cache@) == visible_presets(
                presets_view(old(self).preset_cache@), old(self).logged_in_user->Some_0@, strings_view(friends@)),
            final(self).directory_path == old(self).directory_path,
            final(self).song_cache == old(self).song_cache,
            final(self).player == old(self).player,
    {
        let me = self.require_user();
        match me {
            Ok(me) => {
                let samples = filter_visible_samples(&self.sample_cache, &me, &friends);
                let presets = filter_visible_presets(&self.preset_cache, &me, &friends);
                self.sample_cache = samples;
                self.preset_cache = presets;
                self.friends_cache = friends;
                proof {
                    lemma_visible_samples_only_visible(samples_view(old(self).sample_cache@), me@, strings_view(friends@));
                    lemma_visible_presets_only_visible(presets_view(old(self).preset_cache@), me@, strings_view(friends@));
                    assert forall|i: int| 0 <= i < self.sample_cache@.len() implies
                        visible(me@, strings_view(self.friends_cache@), #[trigger] self.sample_cache@[i].uploaded_by@) by {
                        assert(samples_view(self.sample_cache@)[i] == self.sample_cache@[i]@);
                    }
                    assert forall|i: int| 0 <= i < self.preset_cache@.len() implies
                        visible(me@, strings_view(self.friends_cache@), #[trigger] self.preset_cache@[i].uploaded_by@) by {
                        assert(presets_view(self.preset_cache@)[i] == self.preset_cache@[i]@);
                    }
                }
            },
            Err(_) => {},
        }
    }

    /// Refetch of the sample collection: keeps the samples of `all` uploaded by
    /// the current identity or by a cached friend, replaces the sample cache
    /// with them and returns them. Fails with `NotAuthenticated`, changing
    /// nothing, when nobody is logged in.
    pub fn refresh_samples(&mut self, all: &Vec<Sample>) -> (r: Result<Vec<Sample>, SessionError>)
        requires
            old(self).wf(),
        ensures
            final(self).wf(),
            old(self).logged_in_user.is_none() ==> r == Err::<Vec<Sample>, SessionError>(SessionError::NotAuthenticated)
                && *final(self) == *old(self),
            old(self).logged_in_user.is_some() ==> r is Ok
                && samples_view(r->Ok_0@) == visible_samples(samples_view(all@),
                    old(self).logged_in_user->Some_0@, strings_view(old(self).friends_cache@))
                && samples_view(final(self).sample_cache@) == samples_view(r->Ok_0@),
            final(self).logged_in_user == old(self).logged_in_user,
            final(self).friends_cache == old(self).friends_cache,
            final(self).preset_cache == old(self).preset_cache,
            final(self).directory_path == old(self).directory_path,
            final(self).song_cache == old(self).song_cache,
            final(self).player == old(self).player,
    {
        match self.require_user() {
            Err(e) => Err(e),
            Ok(me) => {
                let visible_now = filter_visible_samples(all, &me, &self.friends_cache);
                self.sample_cache = copy_samples(&visible_now);
                proof {
                    lemma_visible_samples_only_visible(samples_view(all@), me@, strings_view(self.friends_cache@));
                    assert forall|i: int| 0 <= i < self.sample_cache@.len() implies
                        visible(me@, strings_view(self.friends_cache@), #[trigger] self.sample_cache@[i].uploaded_by@) by {
                        assert(samples_view(self.sample_cache@)[i] == self.sample_cache@[i]@);
                    }
                }
                Ok(visible_now)
            },
        }
    }

    /// Refetch of the preset collection; the preset counterpart of `refresh_samples`.
    pub fn refresh_presets(&mut self, all: &Vec<Preset>) -> (r: Result<Vec<Preset>, SessionError>)
        requires
            old(self).wf(),
        ensures
            final(self).wf(),
            old(self).logged_in_user.is_none() ==> r == Err::<Vec<Preset>, SessionError>(SessionError::NotAuthenticated)
                && *final(self) == *old(self),
            old(self).logged_in_user.is_some() ==> r is Ok
                && presets_view(r->Ok_0@) == visible_presets(presets_view(all@),
                    old(self).logged_in_user->Some_0@, strings_view(old(self).friends_cache@))
                && presets_view(final(self).preset_cache@) == presets_view(r->Ok_0@),
            final(self).logged_in_user == old(self).logged_in_user,
            final(self).friends_cache == old(self).friends_cache,
            final(self).sample_cache == old(self).sample_cache,
            final(self).directory_path == old(self).directory_path,
            final(self).song_cache == old(self).song_cache,
            final(self).player == old(self).player,
    {
        match self.require_user() {
            Err(e) => Err(e),
            Ok(me) => {
                let visible_now = filter_visible_presets(all, &me, &self.friends_cache);
                self.preset_cache = copy_presets(&visible_now);
                proof {
                    lemma_visible_presets_only_visible(presets_view(all@), me@, strings_view(self.friends_cache@));
                    assert forall|i: int| 0 <= i < self.preset_cache@.len() implies
                        visible(me@, strings_view(self.friends_cache@), #[trigger] self.preset_cache@[i].uploaded_by@) by {
                        assert(presets_view(self.preset_cache@)[i] == self.preset_cache@[i]@);
                    }
                }
                Ok(visible_now)
            },
        }
    }

    /// The sample record for an upload by the current identity, or
    /// `NotAuthenticated`.
    pub fn new_sample(&self, title: String, url: String) -> (r: Result<Sample, SessionError>)
        ensures
            self.logged_in_user.is_none() ==> r == Err::<Sample, SessionError>(SessionError::NotAuthenticated),
            self.logged_in_user.is_some() ==> r is Ok && r->Ok_0@ == (SampleView {
                title: title@, url: url@, uploaded_by: self.logged_in_user->Some_0@ }),
    {
        match self.require_user() {
            Err(e) => Err(e),
            Ok(me) => Ok(Sample { title, url, uploaded_by: me }),
        }
    }

    /// Local echo of a successful sample upload: appends it to the sample
    /// cache when its uploader is visible to the current identity, and
    /// reports whether it did.
    pub fn record_sample_upload(&mut self, sample: Sample) -> (added: bool)
        requires
            old(self).wf(),
        ensures
            final(self).wf(),
            added == (old(self).logged_in_user.is_some() && visible(old(self).logged_in_user->Some_0@,
                strings_view(old(self).friends_cache@), sample.uploaded_by@)),
            added ==> samples_view(final(self).sample_cache@) == samples_view(old(self).sample_cache@).push(sample@),
            !added ==> *final(self) == *old(self),
            final(self).logged_in_user == old(self).logged_in_user,
            final(self).friends_cache == old(self).friends_cache,
            final(self).preset_cache == old(self).preset_cache,
            final(self).directory_path == old(self).directory_path,
            final(self).song_cache == old(self).song_cache,
            final(self).player == old(self).player,
    {
        match &self.logged_in_user {
            None => false,
            Some(me) => {
                if crate::visibility::is_visible(me, &self.friends_cache, &sample.uploaded_by) {
                    self.sample_cache.push(sample);
                    proof {
                        assert(samples_view(self.sample_cache@) =~= samples_view(old(self).sample_cache@).push(sample@));
                    }
                    true
                } else {
                    false
                }
            },
        }
    }

    /// Local echo of a successful preset upload; the preset counterpart of
    /// `record_sample_upload`.
    pub fn record_preset_upload(&mut self, preset: Preset) -> (added: bool)
        requires
            old(self).wf(),
        ensures
            final(self).wf(),
            added == (old(self).logged_in_user.is_some() && visible(old(self).logged_in_user->Some_0@,
                strings_view(old(self).friends_cache@), preset.uploaded_by@)),
            added ==> presets_view(final(self).preset_cache@) == presets_view(old(self).preset_cache@).push(preset@),
            !added ==> *final(self) == *old(self),
            final(self).logged_in_user == old(self).logged_in_user,
            final(self).friends_cache == old(self).friends_cache,
            final(self).sample_cache == old(self).sample_cache,
            final(self).directory_path == old(self).directory_path,
            final(self).song_cache == old(self).song_cache,
            final(self).player == old(self).player,
    {
        match &self.logged_in_user {
            None => false,
            Some(me) => {
                if crate::visibility::is_visible(me, &self.friends_cache, &preset.uploaded_by) {
                    self.preset_cache.push(preset);
                    proof {
                        assert(presets_view(self.preset_cache@) =~= presets_view(old(self).preset_cache@).push(preset@));
                    }
                    true
                } else {
                    false
                }
            },
        }
    }

    /// After a successful friend addition: appends `friend` to the friend
    /// cache of the logged-in identity. With nobody logged in nothing changes.
    pub fn on_friend_added(&mut self, friend: String)
        requires
            old(self).wf(),
        ensures
            final(self).wf(),
            old(self).logged_in_user.is_some() ==> strings_view(final(self).friends_cache@)
                == strings_view(old(self).friends_cache@).push(friend@),
            old(self).logged_in_user.is_none() ==> *final(self) == *old(self),
            final(self).logged_in_user == old(self).logged_in_user,
            final(self).sample_cache == old(self).sample_cache,
            final(self).preset_cache == old(self).preset_cache,
            final(self).directory_path == old(self).directory_path,
            final(self).song_cache == old(self).song_cache,
            final(self).player == old(self).player,
    {
        if self.logged_in_user.is_some() {
            let ghost me = self.logged_in_user->Some_0@;
            self.friends_cache.push(friend);
            proof {
                let old_f = strings_view(old(self).friends_cache@);
                let new_f = strings_view(self.friends_cache@);
                assert(new_f =~= old_f.push(friend@));
                assert forall|x: Seq<char>| old_f.contains(x) implies new_f.contains(x) by {
                    let k = choose|k: int| 0 <= k < old_f.len() && old_f[k] == x;
                    assert(new_f[k] == x);
                }
                assert forall|i: int| 0 <= i < self.sample_cache@.len() implies
                    visible(me, new_f, #[trigger] self.sample_cache@[i].uploaded_by@) by {
                    assert(visible(me, old_f, self.sample_cache@[i].uploaded_by@));
                }
                assert forall|i: int| 0 <= i < self.preset_cache@.len() implies
                    visible(me, new_f, #[trigger] self.preset_cache@[i].uploaded_by@) by {
                    assert(visible(me, old_f, self.preset_cache@[i].uploaded_by@));
                }
            }
        }
    }

    /// After removing a friend: drops `friend` from the friend cache and every
    /// cached sample and preset uploaded by `friend`, and nothing else. Works on
    /// the local caches alone.
    pub fn on_friend_removed(&mut self, friend: &String)
        requires
            old(self).wf(),
        ensures
            final(self).wf(),
            strings_view(final(self).friends_cache@) == names_without(strings_view(old(self).friends_cache@), friend@),
            samples_view(final(self).sample_cache@) == samples_not_by(samples_view(old(self).sample_cache@), friend@),
            presets_view(final(self).preset_cache@) == presets_not_by(presets_view(old(self).preset_cache@), friend@),
            final(self).logged_in_user == old(self).logged_in_user,
            final(self).directory_path == old(self).directory_path,
            final(self).song_cache == old(self).song_cache,
            final(self).player == old(self).player,
    {
        let friends = drop_name(&self.friends_cache, friend);
        let samples = drop_samples_by(&self.sample_cache, friend);
        let presets = drop_presets_by(&self.preset_cache, friend);
        self.friends_cache = friends;
        self.sample_cache = samples;
        self.preset_cache = presets;
        proof {
            let old_f = strings_view(old(self).friends_cache@);
            let new_f = strings_view(self.friends_cache@);
            lemma_pruning_is_exact(samples_view(old(self).sample_cache@), presets_view(old(self).preset_cache@),
                old_f, friend@);
            if self.logged_in_user.is_some() {
                    let me = self.logged_in_user->Some_0;
                    assert forall|i: int| 0 <= i < self.sample_cache@.len() implies
                        visible(me@, new_f, #[trigger] self.sample_cache@[i].uploaded_by@) by {
                        let x = samples_view(self.sample_cache@)[i];
                        assert(x == self.sample_cache@[i]@);
                        assert(samples_view(self.sample_cache@).contains(x));
                        let j = choose|j: int| 0 <= j < old(self).sample_cache@.len() && samples_view(old(self).sample_cache@)[j] == x;
                        assert(old(self).sample_cache@[j]@ == x);
                        assert(visible(me@, old_f, old(self).sample_cache@[j].uploaded_by@));
                    }
                    assert forall|i: int| 0 <= i < self.preset_cache@.len() implies
                        visible(me@, new_f, #[trigger] self.preset_cache@[i].uploaded_by@) by {
                        let x = presets_view(self.preset_cache@)[i];
                        assert(x == self.preset_cache@[i]@);
                        assert(presets_view(self.preset_cache@).contains(x));
                        let j = choose|j: int| 0 <= j < old(self).preset_cache@.len() && presets_view(old(self).preset_cache@)[j] == x;
                        assert(old(self).preset_cache@[j]@ == x);
                        assert(visible(me@, old_f, old(self).preset_cache@[j].uploaded_by@));
                    }
            } else {
                    assert(new_f.len() == 0) by {
                        assert(old_f =~= Seq::<Seq<char>>::empty());
                    }
                    assert(samples_view(old(self).sample_cache@) =~= Seq::<SampleView>::empty());
                    assert(presets_view(old(self).preset_cache@) =~= Seq::<PresetView>::empty());
            }
        }
    }

    /// Sets the library directory and rebuilds the local track list from the
    /// names listed in it, keeping those with a track extension.
    pub fn set_directory(&mut self, path: String, listing: &Vec<String>)
        requires
            old(self).wf(),
        ensures
            final(self).wf(),
            opt_view(final(self).directory_path) == Some(path@),
            songs_view(final(self).song_cache@) == track_names(strings_view(listing@)),
            final(self).logged_in_user == old(self).logged_in_user,
            final(self).friends_cache == old(self).friends_cache,
            final(self).sample_cache == old(self).sample_cache,
            final(self).preset_cache == old(self).preset_cache,
            final(self).player == old(self).player,
    {
        self.directory_path = Some(path);
        self.song_cache = songs_from_listing(listing);
    }

    /// The cached friend list.
    pub fn cached_friends(&self) -> (r: Vec<String>)
        ensures
            strings_view(r@) == strings_view(self.friends_cache@),
    {
        copy_names(&self.friends_cache)
    }

    /// The cached visible samples, without touching the remote store.
    pub fn cached_samples(&self) -> (r: Vec<Sample>)
        ensures
            samples_view(r@) == samples_view(self.sample_cache@),
    {
        copy_samples(&self.sample_cache)
    }

    /// The cached visible presets, without touching the remote store.
    pub fn cached_presets(&self) -> (r: Vec<Preset>)
        ensures
            presets_view(r@) == presets_view(self.preset_cache@),
    {
        copy_presets(&self.preset_cache)
    }

    /// The cached local tracks.
    pub fn cached_songs(&self) -> (r: Vec<Song>)
        ensures
            songs_view(r@) == songs_view(self.song_cache@),
    {
        copy_songs(&self.song_cache)
    }

    /// The configured library directory, if any.
    pub fn directory(&self) -> (r: Option<String>)
        ensures
            opt_view(r) == opt_view(self.directory_path),
    {
        match &self.directory_path {
            Some(d) => Some(d.clone()),
            None => None,
        }
    }
}

/// Filtering for visibility keeps only items uploaded by `me` or by a member
/// of the friend list used for filtering.
pub proof fn lemma_visible_samples_only_visible(all: Seq<SampleView>, me: Seq<char>, friends: Seq<Seq<char>>)
    ensures
        forall|i: int| 0 <= i < visible_samples(all, me, friends).len() ==>
            (#[trigger] visible_samples(all, me, friends)[i]).uploaded_by == me
            || friends.contains(visible_samples(all, me, friends)[i].uploaded_by),
{
    lemma_keep_all(all, |x: SampleView| visible(me, friends, x.uploaded_by));
}

/// The preset counterpart of `lemma_visible_samples_only_visible`.
pub proof fn lemma_visible_presets_only_visible(all: Seq<PresetView>, me: Seq<char>, friends: Seq<Seq<char>>)
    ensures
        forall|i: int| 0 <= i < visible_presets(all, me, friends).len() ==>
            (#[trigger] visible_presets(all, me, friends)[i]).uploaded_by == me
            || friends.contains(visible_presets(all, me, friends)[i].uploaded_by),
{
    lemma_keep_all(all, |x: PresetView| visible(me, friends, x.uploaded_by));
}

} // verus!

verus! {

/// Removing friend `who` from the caches is exact: afterwards no sample or
/// preset uploaded by `who` is cached and `who` is no longer a friend, while
/// every item uploaded by anyone else and every other friend stays.
pub proof fn lemma_pruning_is_exact(samples: Seq<SampleView>, presets: Seq<PresetView>,
    friends: Seq<Seq<char>>, who: Seq<char>)
    ensures
        forall|x: SampleView| #[trigger] samples_not_by(samples, who).contains(x)
            <==> (samples.contains(x) && x.uploaded_by != who),
        forall|x: PresetView| #[trigger] presets_not_by(presets, who).contains(x)
            <==> (presets.contains(x) && x.uploaded_by != who),
        forall|x: Seq<char>| #[trigger] names_without(friends, who).contains(x)
            <==> (friends.contains(x) && x != who),
{
    assert forall|x: SampleView| #[trigger] samples_not_by(samples, who).contains(x)
        <==> (samples.contains(x) && x.uploaded_by != who) by {
        lemma_keep_contains(samples, |y: SampleView| y.uploaded_by != who, x);
    }
    assert forall|x: PresetView| #[trigger] presets_not_by(presets, who).contains(x)
        <==> (presets.contains(x) && x.uploaded_by != who) by {
        lemma_keep_contains(presets, |y: PresetView| y.uploaded_by != who, x);
    }
    assert forall|x: Seq<char>| #[trigger] names_without(friends, who).contains(x)
        <==> (friends.contains(x) && x != who) by {
        lemma_keep_contains(friends, crate::visibility::other_than(who), x);
    }
}

} // verus!

verus! {

/// A change to one's friends, as the session applies it to its friend cache.
pub enum FriendChange {
    Added(Seq<char>),
    Removed(Seq<char>),
}

/// The friend cache after one change: `on_friend_added` appends,
/// `on_friend_removed` drops every copy of the name.
pub open spec fn cache_step(cache: Seq<Seq<char>>, change: FriendChange) -> Seq<Seq<char>> {
    match change {
        FriendChange::Added(f) => cache.push(f),
        FriendChange::Removed(f) => names_without(cache, f),
    }
}

/// The friend cache after a sequence of changes.
pub open spec fn cache_after(cache: Seq<Seq<char>>, changes: Seq<FriendChange>) -> Seq<Seq<char>>
    decreases changes.len(),
{
    if changes.len() == 0 {
        cache
    } else {
        cache_after(cache_step(cache, changes[0]), changes.drop_first())
    }
}

/// The set of intended friends after a sequence of changes.
pub open spec fn intended_after(friends: Set<Seq<char>>, changes: Seq<FriendChange>) -> Set<Seq<char>>
    decreases changes.len(),
{
    if changes.len() == 0 {
        friends
    } else {
        let next = match changes[0] {
            FriendChange::Added(f) => friends.insert(f),
            FriendChange::Removed(f) => friends.remove(f),
        };
        intended_after(next, changes.drop_first())
    }
}

/// Whatever the sequence of additions and removals, the names in the friend
/// cache are exactly the intended friends: duplicates from repeated additions
/// never outlive a removal.
pub proof fn lemma_friend_cache_converges(cache: Seq<Seq<char>>, intended: Set<Seq<char>>,
    changes: Seq<FriendChange>)
    requires
        forall|x: Seq<char>| #[trigger] cache.contains(x) <==> intended.contains(x),
    ensures
        forall|x: Seq<char>| #[trigger] cache_after(cache, changes).contains(x)
            <==> intended_after(intended, changes).contains(x),
    decreases changes.len(),
{
    if changes.len() > 0 {
        let next_cache = cache_step(cache, changes[0]);
        let next = match changes[0] {
            FriendChange::Added(f) => intended.insert(f),
            FriendChange::Removed(f) => intended.remove(f),
        };
        assert forall|x: Seq<char>| #[trigger] next_cache.contains(x) <==> next.contains(x) by {
            match changes[0] {
                FriendChange::Added(f) => {
                    if cache.contains(x) {
                        let k = choose|k: int| 0 <= k < cache.len() && cache[k] == x;
                        assert(next_cache[k] == x);
                    }
                    if x == f {
                        assert(next_cache[cache.len() as int] == x);
                    }
                    if next_cache.contains(x) {
                        let k = choose|k: int| 0 <= k < next_cache.len() && next_cache[k] == x;
                        if k < cache.len() {
                            assert(cache[k] == x);
                        }
                    }
                },
                FriendChange::Removed(f) => {
                    lemma_keep_contains(cache, crate::visibility::other_than(f), x);
                },
            }
        }
        lemma_friend_cache_converges(next_cache, next, changes.drop_first());
        assert(cache_after(cache, changes) == cache_after(next_cache, changes.drop_first()));
        assert(intended_after(intended, changes) == intended_after(next, changes.drop_first()));
    }
}

} // verus!
