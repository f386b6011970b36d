use vstd::prelude::*;
use crate::model::{Preset, PresetView, Sample, SampleView, presets_view, samples_view, strings_view};

verus! {

/// The elements of `s` that satisfy `p`, in their order.
pub open spec fn keep<T>(s: Seq<T>, p: spec_fn(T) -> bool) -> Seq<T>
    decreases s.len(),
{
    if s.len() == 0 {
        Seq::empty()
    } else {
        let rest = keep(s.drop_last(), p);
        if p(s.last()) {
            rest.push(s.last())
        } else {
            rest
        }
    }
}

/// `keep` holds exactly the elements of `s` that satisfy `p`.
pub proof fn lemma_keep_contains<T>(s: Seq<T>, p: spec_fn(T) -> bool, x: T)
    ensures
        keep(s, p).contains(x) <==> (s.contains(x) && p(x)),
    decreases s.len(),
{
    if s.len() > 0 {
        let rest = keep(s.drop_last(), p);
        let k = keep(s, p);
        lemma_keep_contains(s.drop_last(), p, x);
        if p(s.last()) {
            assert(k == rest.push(s.last()));
        } else {
            assert(k == rest);
        }
        if s.contains(x) && p(x) {
            let i = choose|i: int| 0 <= i < s.len() && s[i] == x;
            if i < s.len() - 1 {
                assert(s.drop_last()[i] == x);
                assert(s.drop_last().contains(x));
                let j = choose|j: int| 0 <= j < rest.len() && rest[j] == x;
                assert(k[j] == x);
            } else {
                assert(k[k.len() - 1] == x);
            }
        }
        if k.contains(x) {
            let j = choose|j: int| 0 <= j < k.len() && k[j] == x;
            if j < rest.len() {
                assert(rest[j] == x);
                assert(rest.contains(x));
                let i = choose|i: int| 0 <= i < s.drop_last().len() && s.drop_last()[i] == x;
                assert(s[i] == x);
            } else {
                assert(s[s.len() - 1] == x);
            }
        }
    }
}

/// Every element that `keep` returns satisfies `p`.
pub proof fn lemma_keep_all<T>(s: Seq<T>, p: spec_fn(T) -> bool)
    ensures
        forall|i: int| 0 <= i < keep(s, p).len() ==> p(#[trigger] keep(s, p)[i]),
{
    assert forall|i: int| 0 <= i < keep(s, p).len() implies p(#[trigger] keep(s, p)[i]) by {
        lemma_keep_contains(s, p, keep(s, p)[i]);
    }
}

/// An item uploaded by `by` is visible to `me` with friend list `friends`
/// when `me` uploaded it or `by` is a friend.
pub open spec fn visible(me: Seq<char>, friends: Seq<Seq<char>>, by: Seq<char>) -> bool {
    by == me || friends.contains(by)
}

/// The samples of `s` visible to `me`.
pub open spec fn visible_samples(s: Seq<SampleView>, me: Seq<char>, friends: Seq<Seq<char>>) -> Seq<SampleView> {
    keep(s, |x: SampleView| visible(me, friends, x.uploaded_by))
}

/// The presets of `s` visible to `me`.
pub open spec fn visible_presets(s: Seq<PresetView>, me: Seq<char>, friends: Seq<Seq<char>>) -> Seq<PresetView> {
    keep(s, |x: PresetView| visible(me, friends, x.uploaded_by))
}

/// The samples of `s` not uploaded by `who`.
pub open spec fn samples_not_by(s: Seq<SampleView>, who: Seq<char>) -> Seq<SampleView> {
    keep(s, |x: SampleView| x.uploaded_by != who)
}

/// The presets of `s` not uploaded by `who`.
pub open spec fn presets_not_by(s: Seq<PresetView>, who: Seq<char>) -> Seq<PresetView> {
    keep(s, |x: PresetView| x.uploaded_by != who)
}

/// The names of `s` other than `who`.
pub open spec fn names_without(s: Seq<Seq<char>>, who: Seq<char>) -> Seq<Seq<char>> {
    keep(s, other_than(who))
}

/// The test "is not `who`".
pub open spec fn other_than(who: Seq<char>) -> spec_fn(Seq<char>) -> bool {
    |x: Seq<char>| x != who
}

/// Whether `name` is in `list`.
pub fn contains_name(list: &Vec<String>, name: &String) -> (r: bool)
    ensures
        r == strings_view(list@).contains(name@),
{
    let mut i: usize = 0;
    while i < list.len()
        invariant
            i <= list.len(),
            forall|k: int| 0 <= k < i ==> list@[k]@ != name@,
        decreases list.len() - i,
    {
        if list[i] == *name {
            assert(strings_view(list@)[i as int] == name@);
            return true;
        }
        i = i + 1;
    }
    assert forall|k: int| 0 <= k < strings_view(list@).len() implies strings_view(list@)[k] != name@ by {
        assert(list@[k]@ != name@);
    }
    false
}

/// Whether an item uploaded by `by` is visible to `me` with friends `friends`.
pub fn is_visible(me: &String, friends: &Vec<String>, by: &String) -> (r: bool)
    ensures
        r == visible(me@, strings_view(friends@), by@),
{
    *by == *me || contains_name(friends, by)
}

/// The samples of `all` visible to `me`, in their order.
pub fn filter_visible_samples(all: &Vec<Sample>, me: &String, friends: &Vec<String>) -> (r: Vec<Sample>)
    ensures
        samples_view(r@) == visible_samples(samples_view(all@), me@, strings_view(friends@)),
{
    let ghost p = |x: SampleView| visible(me@, strings_view(friends@), x.uploaded_by);
    let mut out: Vec<Sample> = Vec::new();
    let mut i: usize = 0;
    while i < all.len()
        invariant
            p == (|x: SampleView| visible(me@, strings_view(friends@), x.uploaded_by)),
            i <= all.len(),
            samples_view(out@) == keep(samples_view(all@.subrange(0, i as int)), p),
        decreases all.len() - i,
    {
        let ghost prev = out@;
        let take = is_visible(me, friends, &all[i].uploaded_by);
        if take {
            out.push(all[i].duplicate());
        }
        proof {
            let v = samples_view(all@.subrange(0, i as int + 1));
            assert(v.drop_last() =~= samples_view(all@.subrange(0, i as int)));
            assert(v.last() == all@[i as int]@);
            if take {
                assert(samples_view(out@) =~= samples_view(prev).push(all@[i as int]@));
            } else {
                assert(out@ == prev);
            }
            assert(samples_view(out@) =~= keep(v, p));
        }
        i = i + 1;
    }
    assert(all@.subrange(0, all@.len() as int) =~= all@);
    out
}

/// The presets of `all` visible to `me`, in their order.
pub fn filter_visible_presets(all: &Vec<Preset>, me: &String, friends: &Vec<String>) -> (r: Vec<Preset>)
    ensures
        presets_view(r@) == visible_presets(presets_view(all@), me@, strings_view(friends@)),
{
    let ghost p = |x: PresetView| visible(me@, strings_view(friends@), x.uploaded_by);
    let mut out: Vec<Preset> = Vec::new();
    let mut i: usize = 0;
    while i < all.len()
        invariant
            p == (|x: PresetView| visible(me@, strings_view(friends@), x.uploaded_by)),
            i <= all.len(),
            presets_view(out@) == keep(presets_view(all@.subrange(0, i as int)), p),
        decreases all.len() - i,
    {
        let ghost prev = out@;
        let take = is_visible(me, friends, &all[i].uploaded_by);
        if take {
            out.push(all[i].duplicate());
        }
        proof {
            let v = presets_view(all@.subrange(0, i as int + 1));
            assert(v.drop_last() =~= presets_view(all@.subrange(0, i as int)));
            assert(v.last() == all@[i as int]@);
            if take {
                assert(presets_view(out@) =~= presets_view(prev).push(all@[i as int]@));
            } else {
                assert(out@ == prev);
            }
            assert(presets_view(out@) =~= keep(v, p));
        }
        i = i + 1;
    }
    assert(all@.subrange(0, all@.len() as int) =~= all@);
    out
}

/// The samples of `items` not uploaded by `who`, in their order.
pub fn drop_samples_by(items: &Vec<Sample>, who: &String) -> (r: Vec<Sample>)
    ensures
        samples_view(r@) == samples_not_by(samples_view(items@), who@),
{
    let ghost p = |x: SampleView| x.uploaded_by != who@;
    let mut out: Vec<Sample> = Vec::new();
    let mut i: usize = 0;
    while i < items.len()
        invariant
            p == (|x: SampleView| x.uploaded_by != who@),
            i <= items.len(),
            samples_view(out@) == keep(samples_view(items@.subrange(0, i as int)), p),
        decreases items.len() - i,
    {
        let ghost prev = out@;
        let take = !(items[i].uploaded_by == *who);
        if take {
            out.push(items[i].duplicate());
        }
        proof {
            let v = samples_view(items@.subrange(0, i as int + 1));
            assert(v.drop_last() =~= samples_view(items@.subrange(0, i as int)));
            assert(v.last() == items@[i as int]@);
            if take {
                assert(samples_view(out@) =~= samples_view(prev).push(items@[i as int]@));
            } else {
                assert(out@ == prev);
            }
            assert(samples_view(out@) =~= keep(v, p));
        }
        i = i + 1;
    }
    assert(items@.subrange(0, items@.len() as int) =~= items@);
    out
}

/// The presets of `items` not uploaded by `who`, in their order.
pub fn drop_presets_by(items: &Vec<Preset>, who: &String) -> (r: Vec<Preset>)
    ensures
        presets_view(r@) == presets_not_by(presets_view(items@), who@),
{
    let ghost p = |x: PresetView| x.uploaded_by != who@;
    let mut out: Vec<Preset> = Vec::new();
    let mut i: usize = 0;
    while i < items.len()
        invariant
            p == (|x: PresetView| x.uploaded_by != who@),
            i <= items.len(),
            presets_view(out@) == keep(presets_view(items@.subrange(0, i as int)), p),
        decreases items.len() - i,
    {
        let ghost prev = out@;
        let take = !(items[i].uploaded_by == *who);
        if take {
            out.push(items[i].duplicate());
        }
        proof {
            let v = presets_view(items@.subrange(0, i as int + 1));
            assert(v.drop_last() =~= presets_view(items@.subrange(0, i as int)));
            assert(v.last() == items@[i as int]@);
            if take {
                assert(presets_view(out@) =~= presets_view(prev).push(items@[i as int]@));
            } else {
                assert(out@ == prev);
            }
            assert(presets_view(out@) =~= keep(v, p));
        }
        i = i + 1;
    }
    assert(items@.subrange(0, items@.len() as int) =~= items@);
    out
}

/// The names of `names` other than `who`, in their order.
pub fn drop_name(names: &Vec<String>, who: &String) -> (r: Vec<String>)
    ensures
        strings_view(r@) == names_without(strings_view(names@), who@),
{
    let ghost p = other_than(who@);
    let mut out: Vec<String> = Vec::new();
    let mut i: usize = 0;
    while i < names.len()
        invariant
            p == (|x: Seq<char>| x != who@),
            i <= names.len(),
            strings_view(out@) == keep(strings_view(names@.subrange(0, i as int)), p),
        decreases names.len() - i,
    {
        let ghost prev = out@;
        let take = !(names[i] == *who);
        if take {
            out.push(names[i].clone());
        }
        proof {
            let v = strings_view(names@.subrange(0, i as int + 1));
            assert(v.drop_last() =~= strings_view(names@.subrange(0, i as int)));
            assert(v.last() == names@[i as int]@);
            if take {
                assert(strings_view(out@) =~= strings_view(prev).push(names@[i as int]@));
            } else {
                assert(out@ == prev);
            }
            assert(strings_view(out@) =~= keep(v, p));
        }
        i = i + 1;
    }
    assert(names@.subrange(0, names@.len() as int) =~= names@);
    out
}

} // verus!
