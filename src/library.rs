use vstd::prelude::*;
use crate::model::{Song, opt_view, songs_view};

verus! {

/// The index of the last `c` in `s` before position `n`, or -1 if there is none.
pub open spec fn last_index_before(s: Seq<char>, c: char, n: int) -> int
    decreases n,
{
    if n <= 0 {
        -1
    } else if s[n - 1] == c {
        n - 1
    } else {
        last_index_before(s, c, n - 1)
    }
}

/// The extension of a file name: what follows its last dot, unless that dot
/// is the first character or there is no dot at all.
pub open spec fn extension_of(name: Seq<char>) -> Option<Seq<char>> {
    let i = last_index_before(name, '.', name.len() as int);
    if i <= 0 {
        None
    } else {
        Some(name.subrange(i + 1, name.len() as int))
    }
}

/// Whether a file name has one of the audio extensions the player accepts.
pub open spec fn is_track_name(name: Seq<char>) -> bool {
    match extension_of(name) {
        Some(e) => e == "mp3"@ || e == "wav"@ || e == "flac"@,
        None => false,
    }
}

/// The track names among `names`, in their order.
pub open spec fn track_names(names: Seq<Seq<char>>) -> Seq<Seq<char>>
    decreases names.len(),
{
    if names.len() == 0 {
        Seq::empty()
    } else {
        let rest = track_names(names.drop_last());
        if is_track_name(names.last()) {
            rest.push(names.last())
        } else {
            rest
        }
    }
}

pub(crate) proof fn lemma_last_index_range(s: Seq<char>, c: char, n: int)
    requires
        0 <= n <= s.len(),
    ensures
        -1 <= last_index_before(s, c, n) < n,
    decreases n,
{
    if n > 0 && s[n - 1] != c {
        lemma_last_index_range(s, c, n - 1);
    }
}

/// The position of the last `c` among the first `n` characters of `s`.
pub(crate) fn last_index_of(s: &str, c: char, n: usize) -> (r: Option<usize>)
    requires
        n <= s@.len(),
    ensures
        r.is_none() == (last_index_before(s@, c, n as int) < 0),
        r.is_some() ==> r->Some_0 as int == last_index_before(s@, c, n as int),
{
    let mut i: usize = n;
    while i > 0
        invariant
            i <= n <= s@.len(),
            last_index_before(s@, c, n as int) == last_index_before(s@, c, i as int),
        ensures
            i <= n,
            last_index_before(s@, c, n as int) == last_index_before(s@, c, i as int),
            i == 0 || s@[i - 1] == c,
        decreases i,
    {
        if s.get_char(i - 1) == c {
            break;
        }
        i = i - 1;
    }
    if i == 0 {
        None
    } else {
        Some(i - 1)
    }
}

/// The extension of `name`, as `extension_of` defines it.
pub fn extension(name: &str) -> (r: Option<String>)
    ensures
        opt_view(r) == extension_of(name@),
{
    let len = name.unicode_len();
    proof {
        lemma_last_index_range(name@, '.', len as int);
    }
    match last_index_of(name, '.', len) {
        Some(i) => {
            if i == 0 {
                None
            } else {
                Some(String::from_str(name.substring_char(i + 1, len)))
            }
        },
        None => None,
    }
}

/// Whether `name` names a playable track (mp3, wav or flac).
pub fn is_track_file(name: &str) -> (r: bool)
    ensures
        r == is_track_name(name@),
{
    match extension(name) {
        None => false,
        Some(e) => {
            let mp3 = String::from_str("mp3");
            let wav = String::from_str("wav");
            let flac = String::from_str("flac");
            e == mp3 || e == wav || e == flac
        },
    }
}

/// The songs of a directory listing: the file names with a track extension,
/// in listing order.
pub fn songs_from_listing(names: &Vec<String>) -> (r: Vec<Song>)
    ensures
        songs_view(r@) == track_names(crate::model::strings_view(names@)),
{
    let mut out: Vec<Song> = Vec::new();
    let mut i: usize = 0;
    while i < names.len()
        invariant
            i <= names.len(),
            songs_view(out@) == track_names(crate::model::strings_view(names@.subrange(0, i as int))),
        decreases names.len() - i,
    {
        proof {
            assert(names@.subrange(0, i as int + 1).drop_last() =~= names@.subrange(0, i as int));
        }
        if is_track_file(names[i].as_str()) {
            out.push(Song { title: names[i].clone() });
        }
        proof {
            let v = crate::model::strings_view(names@.subrange(0, i as int + 1));
            assert(v.drop_last() =~= crate::model::strings_view(names@.subrange(0, i as int)));
            assert(v.last() == names@[i as int]@);
            assert(songs_view(out@) =~= track_names(v));
        }
        i = i + 1;
    }
    assert(names@.subrange(0, names@.len() as int) =~= names@);
    out
}

} // verus!
