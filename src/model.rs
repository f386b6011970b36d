use vstd::prelude::*;

verus! {

/// A shared audio sample: its title is the key within the sample collection.
#[derive(Debug, Clone)]
pub struct Sample {
    pub title: String,
    pub url: String,
    pub uploaded_by: String,
}

/// A shared preset whose payload is base64 text.
#[derive(Debug, Clone)]
pub struct Preset {
    pub title: String,
    pub data: String,
    pub uploaded_by: String,
}

/// A registered user as written to the remote store.
#[derive(Debug)]
pub struct User {
    pub username: String,
    pub password: String,
    pub friends: Option<Vec<String>>,
}

/// A playable track found in the local library directory.
#[derive(Debug, Clone)]
pub struct Song {
    pub title: String,
}

/// Mathematical model of a `Sample`.
pub struct SampleView {
    pub title: Seq<char>,
    pub url: Seq<char>,
    pub uploaded_by: Seq<char>,
}

/// Mathematical model of a `Preset`.
pub struct PresetView {
    pub title: Seq<char>,
    pub data: Seq<char>,
    pub uploaded_by: Seq<char>,
}

impl View for Sample {
    type V = SampleView;

    open spec fn view(&self) -> SampleView {
        SampleView { title: self.title@, url: self.url@, uploaded_by: self.uploaded_by@ }
    }
}

impl View for Preset {
    type V = PresetView;

    open spec fn view(&self) -> PresetView {
        PresetView { title: self.title@, data: self.data@, uploaded_by: self.uploaded_by@ }
    }
}

impl View for Song {
    type V = Seq<char>;

    open spec fn view(&self) -> Seq<char> {
        self.title@
    }
}

impl Sample {
    /// A field-by-field copy with the same model.
    pub fn duplicate(&self) -> (r: Sample)
        ensures
            r@ == self@,
    {
        Sample { title: self.title.clone(), url: self.url.clone(), uploaded_by: self.uploaded_by.clone() }
    }
}

impl Preset {
    /// A field-by-field copy with the same model.
    pub fn duplicate(&self) -> (r: Preset)
        ensures
            r@ == self@,
    {
        Preset { title: self.title.clone(), data: self.data.clone(), uploaded_by: self.uploaded_by.clone() }
    }
}

impl Song {
    /// A copy with the same title.
    pub fn duplicate(&self) -> (r: Song)
        ensures
            r@ == self@,
    {
        Song { title: self.title.clone() }
    }
}

/// The model of an optional string.
pub open spec fn opt_view(s: Option<String>) -> Option<Seq<char>> {
    match s {
        Some(t) => Some(t@),
        None => None,
    }
}

/// The models of a sequence of samples.
pub open spec fn samples_view(s: Seq<Sample>) -> Seq<SampleView> {
    s.map_values(|x: Sample| x@)
}

/// The models of a sequence of presets.
pub open spec fn presets_view(s: Seq<Preset>) -> Seq<PresetView> {
    s.map_values(|x: Preset| x@)
}

/// The models of a sequence of strings.
pub open spec fn strings_view(s: Seq<String>) -> Seq<Seq<char>> {
    s.map_values(|x: String| x@)
}

/// The titles of a sequence of songs.
pub open spec fn songs_view(s: Seq<Song>) -> Seq<Seq<char>> {
    s.map_values(|x: Song| x@)
}

/// Failures reported by the session layer.
#[derive(Debug, Clone, PartialEq, Eq)]
pub enum SessionError {
    /// The operation needs a logged-in identity and none is set.
    NotAuthenticated,
    /// A referenced identity or item is absent from the remote store.
    NotFound(String),
    /// Registration of an identity that already exists.
    Conflict(String),
    /// Login failed; deliberately says nothing about which check failed.
    InvalidCredential,
    /// The remote store or its transport failed.
    RemoteUnavailable(String),
    /// A payload could not be decoded.
    Decode(String),
    /// A local file or path could not be used.
    Io(String),
    /// Playback was asked for before a library directory was configured.
    NoDirectory,
}

} // verus!
