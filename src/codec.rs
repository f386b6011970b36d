use vstd::prelude::*;
use crate::model::{Preset, PresetView, SessionError};
use crate::library::{last_index_before, last_index_of, lemma_last_index_range};
use crate::records::{Record, first_field_text, first_text_field};

verus! {

/// The standard base64 text of `bytes`, as the base64 crate writes it.
pub uninterp spec fn base64_text(bytes: Seq<u8>) -> Seq<char>;

/// The bytes that standard base64 text decodes to, or `None` for text that
/// is not valid base64.
pub uninterp spec fn base64_bytes(text: Seq<char>) -> Option<Seq<u8>>;

/// Relies on `base64::encode` (standard alphabet, padded): the text depends on
/// the bytes alone and decodes back to them.
#[verifier::external_body]
#[allow(deprecated)]
fn encode_base64(bytes: &Vec<u8>) -> (r: String)
    ensures
        r@ == base64_text(bytes@),
        base64_bytes(r@) == Some(bytes@),
{
    base64::encode(bytes)
}

/// Relies on `base64::decode` (standard alphabet, padded): the bytes depend on
/// the text alone; invalid text is an error.
#[verifier::external_body]
#[allow(deprecated)]
fn decode_base64(text: &str) -> (r: Option<Vec<u8>>)
    ensures
        r.is_some() == base64_bytes(text@).is_some(),
        r.is_some() ==> base64_bytes(text@) == Some(r->Some_0@),
{
    base64::decode(text).ok()
}

/// The length of `path` up to position `n` once trailing `/` are dropped.
pub open spec fn trimmed_len(path: Seq<char>, n: int) -> int
    decreases n,
{
    if n > 0 && path[n - 1] == '/' {
        trimmed_len(path, n - 1)
    } else {
        n
    }
}

/// The last component of `path`: what follows the last `/` once trailing
/// `/` are dropped.
pub open spec fn file_name_of(path: Seq<char>) -> Seq<char> {
    let e = trimmed_len(path, path.len() as int);
    let i = last_index_before(path, '/', e);
    path.subrange(i + 1, e)
}

/// The stem of a path: its last component without the extension; `None`
/// when there is no component or it is `..`.
pub open spec fn file_stem_of(path: Seq<char>) -> Option<Seq<char>> {
    let name = file_name_of(path);
    if name.len() == 0 || name == ".."@ {
        None
    } else {
        let d = last_index_before(name, '.', name.len() as int);
        if d <= 0 {
            Some(name)
        } else {
            Some(name.subrange(0, d))
        }
    }
}

/// The stem of a local file path, which titles the preset uploaded from it.
pub fn file_stem(path: &str) -> (r: Option<String>)
    ensures
        crate::model::opt_view(r) == file_stem_of(path@),
{
    let len = path.unicode_len();
    let mut end: usize = len;
    while end > 0
        invariant
            end <= len,
            len == path@.len(),
            trimmed_len(path@, len as int) == trimmed_len(path@, end as int),
        ensures
            end <= len,
            trimmed_len(path@, len as int) == trimmed_len(path@, end as int),
            end == 0 || path@[end - 1] != '/',
        decreases end,
    {
        if path.get_char(end - 1) != '/' {
            break;
        }
        end = end - 1;
    }
    assert(trimmed_len(path@, len as int) == end);
    proof {
        lemma_last_index_range(path@, '/', end as int);
    }
    let start: usize = match last_index_of(path, '/', end) {
        Some(i) => i + 1,
        None => 0,
    };
    let name = path.substring_char(start, end);
    assert(name@ == file_name_of(path@));
    let name_len = name.unicode_len();
    if name_len == 0 {
        return None;
    }
    if name_len == 2 && name.get_char(0) == '.' && name.get_char(1) == '.' {
        proof {
            reveal_strlit("..");
        }
        assert(name@ =~= ".."@);
        return None;
    }
    proof {
        reveal_strlit("..");
        if name@ == ".."@ {
            assert(name@[0] == '.' && name@[1] == '.');
        }
        lemma_last_index_range(name@, '.', name@.len() as int);
    }
    match last_index_of(name, '.', name_len) {
        Some(d) => {
            if d == 0 {
                Some(String::from_str(name))
            } else {
                Some(String::from_str(name.substring_char(0, d)))
            }
        },
        None => Some(String::from_str(name)),
    }
}

/// The preset uploaded from the file at `path` holding `bytes`, by `username`:
/// titled by the file's stem, its payload the base64 text of the bytes.
/// A path without a file name is an `Io` error.
pub fn preset_for_upload(path: &str, bytes: &Vec<u8>, username: &String) -> (r: Result<Preset, SessionError>)
    ensures
        file_stem_of(path@).is_none() ==> r is Err && r->Err_0 is Io,
        file_stem_of(path@).is_some() ==> r is Ok && r->Ok_0@ == (PresetView {
            title: file_stem_of(path@)->Some_0,
            data: base64_text(bytes@),
            uploaded_by: username@,
        }),
        r is Ok ==> base64_bytes(r->Ok_0.data@) == Some(bytes@),
{
    match file_stem(path) {
        None => Err(SessionError::Io(String::from_str("Failed to get file name"))),
        Some(title) => {
            let data = encode_base64(bytes);
            Ok(Preset { title, data, uploaded_by: username.clone() })
        },
    }
}

/// What downloading a preset whose record holds payload `stored` yields: the
/// decoded bytes, or `None` when there is no payload or it is not base64.
pub open spec fn downloaded(stored: Option<Seq<char>>) -> Option<Seq<u8>> {
    match stored {
        Some(d) => base64_bytes(d),
        None => None,
    }
}

/// The file content of a downloaded preset record: the first stored object
/// with a text `data` field, decoded from base64. No such object is
/// `NotFound`; a payload that is not base64 is `Decode`.
pub fn preset_file_bytes(r: &Record, preset_name: &String) -> (out: Result<Vec<u8>, SessionError>)
    ensures
        ({
            let stored = match *r {
                Record::Object(e) => first_field_text(e@, "data"@),
                _ => None,
            };
            &&& stored.is_none() ==> out is Err && out->Err_0 is NotFound
                && out->Err_0->NotFound_0@ == "Failed to fetch preset data for: "@ + preset_name@
            &&& stored.is_some() && downloaded(stored).is_none() ==> out is Err && out->Err_0 is Decode
            &&& downloaded(stored).is_some() ==> out is Ok && out->Ok_0@ == downloaded(stored)->Some_0
            &&& out is Ok ==> downloaded(stored).is_some()
        }),
{
    let key = String::from_str("data");
    match first_text_field(r, &key) {
        None => {
            let mut msg = String::from_str("Failed to fetch preset data for: ");
            msg.append(preset_name.as_str());
            Err(SessionError::NotFound(msg))
        },
        Some(text) => match decode_base64(text.as_str()) {
            Some(bytes) => Ok(bytes),
            None => Err(SessionError::Decode(String::from_str("Preset payload is not valid base64"))),
        },
    }
}

/// Uploading a file's bytes as a preset and downloading that preset gives
/// back the same bytes: the payload that `preset_for_upload` stores is one
/// that `preset_file_bytes` decodes to exactly those bytes.
pub proof fn lemma_preset_round_trip(bytes: Seq<u8>, uploaded: PresetView)
    requires
        base64_bytes(uploaded.data) == Some(bytes),
    ensures
        downloaded(Some(uploaded.data)) == Some(bytes),
{
}

} // verus!
