use vstd::prelude::*;
use crate::model::{Preset, PresetView, Sample, SampleView, presets_view, samples_view, strings_view};

verus! {

/// A value read from the remote store, held as plain data. Objects keep
/// their entries in the order the store returned them, with distinct keys.
#[derive(Debug)]
pub enum Record {
    Null,
    Bool(bool),
    Text(String),
    List(Vec<Record>),
    Object(Vec<(String, Record)>),
    /// A number or another value that the session never reads.
    Other,
}

/// The value under `key` in the object entries `e`, if any.
pub open spec fn lookup(e: Seq<(String, Record)>, key: Seq<char>) -> Option<Record>
    decreases e.len(),
{
    if e.len() == 0 {
        None
    } else if e[0].0@ == key {
        Some(e[0].1)
    } else {
        lookup(e.drop_first(), key)
    }
}

/// The text under `key` when `r` is an object holding text there.
pub open spec fn field_text(r: Record, key: Seq<char>) -> Option<Seq<char>> {
    match r {
        Record::Object(e) => match lookup(e@, key) {
            Some(Record::Text(t)) => Some(t@),
            _ => None,
        },
        _ => None,
    }
}

/// The first entry of `e`, in order, whose value is an object holding text
/// under `key`: that text.
pub open spec fn first_field_text(e: Seq<(String, Record)>, key: Seq<char>) -> Option<Seq<char>>
    decreases e.len(),
{
    if e.len() == 0 {
        None
    } else {
        match field_text(e[0].1, key) {
            Some(t) => Some(t),
            None => first_field_text(e.drop_first(), key),
        }
    }
}

/// A shared item stored as an object with text fields `title`, `payload_key`
/// and `uploaded_by`; its payload is put in the `url` place.
pub open spec fn item_of(r: Record, payload_key: Seq<char>) -> Option<SampleView> {
    match (field_text(r, "title"@), field_text(r, payload_key), field_text(r, "uploaded_by"@)) {
        (Some(t), Some(p), Some(u)) => Some(SampleView { title: t, url: p, uploaded_by: u }),
        _ => None,
    }
}

/// The items stored as the values of the entries `e`, in order; values that
/// are not items are skipped.
pub open spec fn items_in_group(e: Seq<(String, Record)>, payload_key: Seq<char>) -> Seq<SampleView>
    decreases e.len(),
{
    if e.len() == 0 {
        Seq::empty()
    } else {
        let rest = items_in_group(e.drop_last(), payload_key);
        match item_of(e.last().1, payload_key) {
            Some(x) => rest.push(x),
            None => rest,
        }
    }
}

/// The items of a collection stored as groups: each group is an object
/// whose values are items.
pub open spec fn items_in_groups(g: Seq<(String, Record)>, payload_key: Seq<char>) -> Seq<SampleView>
    decreases g.len(),
{
    if g.len() == 0 {
        Seq::empty()
    } else {
        let rest = items_in_groups(g.drop_last(), payload_key);
        match g.last().1 {
            Record::Object(inner) => rest + items_in_group(inner@, payload_key),
            _ => rest,
        }
    }
}

/// The items of a whole collection record; anything but an object holds none.
pub open spec fn items_in(r: Record, payload_key: Seq<char>) -> Seq<SampleView> {
    match r {
        Record::Object(g) => items_in_groups(g@, payload_key),
        _ => Seq::empty(),
    }
}

/// The samples of the stored sample collection.
pub open spec fn samples_in(r: Record) -> Seq<SampleView> {
    items_in(r, "url"@)
}

/// The presets of the stored preset collection.
pub open spec fn presets_in(r: Record) -> Seq<PresetView> {
    items_in(r, "data"@).map_values(|x: SampleView| PresetView { title: x.title, data: x.url, uploaded_by: x.uploaded_by })
}

/// The keys of an object record; anything else has none.
pub open spec fn keys_of(r: Record) -> Seq<Seq<char>> {
    match r {
        Record::Object(e) => e@.map_values(|p: (String, Record)| p.0@),
        _ => Seq::empty(),
    }
}

/// Whether the store holds nothing at the record's place.
pub fn is_null(r: &Record) -> (b: bool)
    ensures
        b == (r is Null),
{
    match r {
        Record::Null => true,
        _ => false,
    }
}

fn lookup_in<'a>(e: &'a Vec<(String, Record)>, key: &String) -> (r: Option<&'a Record>)
    ensures
        r.is_none() == lookup(e@, key@).is_none(),
        r.is_some() ==> lookup(e@, key@) == Some(*r->Some_0),
{
    let mut i: usize = 0;
    assert(e@.subrange(0, e@.len() as int) =~= e@);
    while i < e.len()
        invariant
            i <= e.len(),
            lookup(e@, key@) == lookup(e@.subrange(i as int, e@.len() as int), key@),
        decreases e.len() - i,
    {
        let ghost rest = e@.subrange(i as int, e@.len() as int);
        assert(rest.drop_first() =~= e@.subrange(i as int + 1, e@.len() as int));
        assert(rest[0] == e@[i as int]);
        if e[i].0 == *key {
            return Some(&e[i].1);
        }
        i = i + 1;
    }
    None
}

/// The text under `key` when `r` is an object holding text there.
pub fn text_field(r: &Record, key: &String) -> (t: Option<String>)
    ensures
        crate::model::opt_view(t) == field_text(*r, key@),
{
    match r {
        Record::Object(e) => match lookup_in(e, key) {
            Some(Record::Text(s)) => Some(s.clone()),
            _ => None,
        },
        _ => None,
    }
}

fn first_text_in(e: &Vec<(String, Record)>, key: &String) -> (t: Option<String>)
    ensures
        crate::model::opt_view(t) == first_field_text(e@, key@),
{
    let mut i: usize = 0;
    assert(e@.subrange(0, e@.len() as int) =~= e@);
    while i < e.len()
        invariant
            i <= e.len(),
            first_field_text(e@, key@) == first_field_text(e@.subrange(i as int, e@.len() as int), key@),
        decreases e.len() - i,
    {
        let ghost rest = e@.subrange(i as int, e@.len() as int);
        assert(rest.drop_first() =~= e@.subrange(i as int + 1, e@.len() as int));
        assert(rest[0] == e@[i as int]);
        let found = text_field(&e[i].1, key);
        if found.is_some() {
            return found;
        }
        i = i + 1;
    }
    None
}

/// The first object among the values of `r` that holds text under `key`:
/// that text. Reads the stored password of a user record and the payload of
/// a preset record.
pub fn first_text_field(r: &Record, key: &String) -> (t: Option<String>)
    ensures
        crate::model::opt_view(t) == (match *r {
            Record::Object(e) => first_field_text(e@, key@),
            _ => None,
        }),
{
    match r {
        Record::Object(e) => first_text_in(e, key),
        _ => None,
    }
}

fn item_from(r: &Record, payload_key: &String) -> (x: Option<Sample>)
    ensures
        x.is_none() == item_of(*r, payload_key@).is_none(),
        x.is_some() ==> item_of(*r, payload_key@) == Some(x->Some_0@),
{
    let title_key = String::from_str("title");
    let by_key = String::from_str("uploaded_by");
    let title = text_field(r, &title_key);
    let payload = text_field(r, payload_key);
    let by = text_field(r, &by_key);
    match (title, payload, by) {
        (Some(t), Some(p), Some(u)) => Some(Sample { title: t, url: p, uploaded_by: u }),
        _ => None,
    }
}

fn items_from(r: &Record, payload_key: &String) -> (out: Vec<Sample>)
    ensures
        samples_view(out@) == items_in(*r, payload_key@),
{
    let mut out: Vec<Sample> = Vec::new();
    match r {
        Record::Object(g) => {
            let mut i: usize = 0;
            while i < g.len()
                invariant
                    i <= g.len(),
                    samples_view(out@) == items_in_groups(g@.subrange(0, i as int), payload_key@),
                decreases g.len() - i,
            {
                let ghost before = samples_view(out@);
                proof {
                    assert(g@.subrange(0, i as int + 1).drop_last() =~= g@.subrange(0, i as int));
                    assert(g@.subrange(0, i as int + 1).last() == g@[i as int]);
                }
                match &g[i].1 {
                    Record::Object(inner) => {
                        let mut j: usize = 0;
                        while j < inner.len()
                            invariant
                                j <= inner.len(),
                                samples_view(out@) == before + items_in_group(inner@.subrange(0, j as int), payload_key@),
                            decreases inner.len() - j,
                        {
                            let ghost mid = samples_view(out@);
                            let item = item_from(&inner[j].1, payload_key);
                            proof {
                                let v = inner@.subrange(0, j as int + 1);
                                assert(v.drop_last() =~= inner@.subrange(0, j as int));
                                assert(v.last() == inner@[j as int]);
                            }
                            match item {
                                Some(x) => {
                                    out.push(x);
                                    assert(samples_view(out@) =~= mid.push(x@));
                                    assert(samples_view(out@) =~= before + items_in_group(inner@.subrange(0, j as int + 1), payload_key@));
                                },
                                None => {
                                    assert(samples_view(out@) =~= before + items_in_group(inner@.subrange(0, j as int + 1), payload_key@));
                                },
                            }
                            j = j + 1;
                        }
                        assert(inner@.subrange(0, inner@.len() as int) =~= inner@);
                    },
                    _ => {},
                }
                i = i + 1;
            }
            assert(g@.subrange(0, g@.len() as int) =~= g@);
        },
        _ => {},
    }
    out
}

/// The samples of the stored sample collection: groups of objects with text
/// `title`, `url` and `uploaded_by`; other values are skipped.
pub fn samples_from_record(r: &Record) -> (out: Vec<Sample>)
    ensures
        samples_view(out@) == samples_in(*r),
{
    let key = String::from_str("url");
    items_from(r, &key)
}

/// The presets of the stored preset collection: groups of objects with text
/// `title`, `data` and `uploaded_by`; other values are skipped.
pub fn presets_from_record(r: &Record) -> (out: Vec<Preset>)
    ensures
        presets_view(out@) == presets_in(*r),
{
    let key = String::from_str("data");
    let items = items_from(r, &key);
    let mut out: Vec<Preset> = Vec::new();
    let mut i: usize = 0;
    while i < items.len()
        invariant
            i <= items.len(),
            out@.len() == i,
            forall|k: int| 0 <= k < i ==> (#[trigger] out@[k])@ == (PresetView {
                title: items@[k]@.title, data: items@[k]@.url, uploaded_by: items@[k]@.uploaded_by }),
        decreases items.len() - i,
    {
        let it = &items[i];
        out.push(Preset { title: it.title.clone(), data: it.url.clone(), uploaded_by: it.uploaded_by.clone() });
        i = i + 1;
    }
    assert(presets_view(out@) =~= presets_in(*r));
    out
}

/// The friend names under a user's friend record: the keys of the object;
/// an absent record has none.
pub fn friend_names(r: &Record) -> (out: Vec<String>)
    ensures
        strings_view(out@) == keys_of(*r),
{
    let mut out: Vec<String> = Vec::new();
    match r {
        Record::Object(e) => {
            let mut i: usize = 0;
            while i < e.len()
                invariant
                    i <= e.len(),
                    out@.len() == i,
                    forall|k: int| 0 <= k < i ==> (#[trigger] out@[k])@ == e@[k].0@,
                decreases e.len() - i,
            {
                out.push(e[i].0.clone());
                i = i + 1;
            }
            assert(strings_view(out@) =~= keys_of(*r));
        },
        _ => {
            assert(strings_view(out@) =~= keys_of(*r));
        },
    }
    out
}

} // verus!
