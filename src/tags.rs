//! The tag set of a secret record: free-form strings, each stored once.
use vstd::prelude::*;

use crate::text::same_text;

verus! {

/// The texts of a list of tags.
pub open spec fn tag_texts(tags: Seq<String>) -> Seq<Seq<char>> {
    tags.map_values(|t: String| t@)
}

/// What a tag list holds after adding `req` to `ex` one tag at a time,
/// skipping each tag that is already there.
pub open spec fn add_tags_spec(ex: Seq<Seq<char>>, req: Seq<Seq<char>>) -> Seq<Seq<char>>
    decreases req.len(),
{
    if req.len() == 0 {
        ex
    } else {
        let before = add_tags_spec(ex, req.drop_last());
        if before.contains(req.last()) {
            before
        } else {
            before.push(req.last())
        }
    }
}

/// What a tag list holds after removing every tag of `req`, the others
/// kept in their order.
pub open spec fn remove_tags_spec(ex: Seq<Seq<char>>, req: Seq<Seq<char>>) -> Seq<Seq<char>>
    decreases ex.len(),
{
    if ex.len() == 0 {
        ex
    } else {
        let before = remove_tags_spec(ex.drop_last(), req);
        if req.contains(ex.last()) {
            before
        } else {
            before.push(ex.last())
        }
    }
}

/// Every requested tag is among the tags after adding.
pub proof fn lemma_add_tags_contains(ex: Seq<Seq<char>>, req: Seq<Seq<char>>)
    ensures
        forall|t: Seq<char>| ex.contains(t) ==> add_tags_spec(ex, req).contains(t),
        forall|t: Seq<char>| req.contains(t) ==> add_tags_spec(ex, req).contains(t),
        forall|t: Seq<char>|
            add_tags_spec(ex, req).contains(t) ==> ex.contains(t) || req.contains(t),
    decreases req.len(),
{
    if req.len() > 0 {
        let init = req.drop_last();
        lemma_add_tags_contains(ex, init);
        let before = add_tags_spec(ex, init);
        assert forall|t: Seq<char>| req.contains(t) implies add_tags_spec(ex, req).contains(t) by {
            let k = choose|k: int| 0 <= k < req.len() && req[k] == t;
            let after = add_tags_spec(ex, req);
            if k < req.len() - 1 {
                assert(init[k] == t);
                assert(init.contains(t));
                assert(before.contains(t));
                let j = choose|j: int| 0 <= j < before.len() && before[j] == t;
                if !before.contains(req.last()) {
                    assert(after[j] == t);
                } else {
                    assert(after[j] == t);
                }
            } else {
                assert(t == req.last());
                if !before.contains(req.last()) {
                    assert(after[before.len() as int] == t);
                }
            }
        }
        assert forall|t: Seq<char>| ex.contains(t) implies add_tags_spec(ex, req).contains(t) by {
            if !before.contains(req.last()) {
                let j = choose|j: int| 0 <= j < before.len() && before[j] == t;
                assert(before.push(req.last())[j] == t);
            }
        }
        assert forall|t: Seq<char>| add_tags_spec(ex, req).contains(t) implies ex.contains(t)
            || req.contains(t) by {
            if !before.contains(req.last()) {
                let j = choose|j: int|
                    0 <= j < before.push(req.last()).len() && before.push(req.last())[j] == t;
                if j < before.len() {
                    assert(before[j] == t);
                } else {
                    assert(req[req.len() - 1] == t);
                }
            }
            if before.contains(t) {
                if init.contains(t) {
                    let k = choose|k: int| 0 <= k < init.len() && init[k] == t;
                    assert(req[k] == t);
                }
            }
        }
    }
}

/// Adding tags that are all there already changes nothing.
pub proof fn lemma_add_present_tags(ex: Seq<Seq<char>>, req: Seq<Seq<char>>)
    requires
        forall|t: Seq<char>| req.contains(t) ==> ex.contains(t),
    ensures
        add_tags_spec(ex, req) == ex,
    decreases req.len(),
{
    if req.len() > 0 {
        let init = req.drop_last();
        assert forall|t: Seq<char>| init.contains(t) implies ex.contains(t) by {
            let k = choose|k: int| 0 <= k < init.len() && init[k] == t;
            assert(req[k] == t);
        }
        lemma_add_present_tags(ex, init);
        assert(req.contains(req[req.len() - 1]));
    }
}

/// Adding never stores a tag twice.
pub proof fn lemma_add_tags_unique(ex: Seq<Seq<char>>, req: Seq<Seq<char>>)
    requires
        ex.no_duplicates(),
    ensures
        add_tags_spec(ex, req).no_duplicates(),
    decreases req.len(),
{
    if req.len() > 0 {
        lemma_add_tags_unique(ex, req.drop_last());
        let before = add_tags_spec(ex, req.drop_last());
        if !before.contains(req.last()) {
            let after = before.push(req.last());
            assert forall|i: int, j: int|
                0 <= i < after.len() && 0 <= j < after.len() && i != j implies after[i]
                != after[j] by {
                if i == before.len() as int && j < before.len() {
                    assert(before[j] == after[j]);
                } else if j == before.len() as int && i < before.len() {
                    assert(before[i] == after[i]);
                }
            }
        }
    }
}

/// Tag idempotence: adding the same tags again changes nothing, a tag added
/// twice is stored once, and re-adding every stored tag keeps the set as
/// it is.
pub proof fn lemma_tag_idempotence(ex: Seq<Seq<char>>, req: Seq<Seq<char>>)
    requires
        ex.no_duplicates(),
    ensures
        add_tags_spec(add_tags_spec(ex, req), req) == add_tags_spec(ex, req),
        add_tags_spec(ex, req).no_duplicates(),
        forall|t: Seq<char>| req.contains(t) ==> add_tags_spec(ex, req).contains(t),
        add_tags_spec(ex, ex) == ex,
{
    lemma_add_tags_contains(ex, req);
    lemma_add_present_tags(add_tags_spec(ex, req), req);
    lemma_add_tags_unique(ex, req);
    lemma_add_present_tags(ex, ex);
}

/// Whether `t` is among `tags`.
pub fn contains_tag(tags: &Vec<String>, t: &str) -> (r: bool)
    ensures
        r <==> tag_texts(tags@).contains(t@),
{
    let mut i: usize = 0;
    while i < tags.len()
        invariant
            i <= tags@.len(),
            forall|j: int| 0 <= j < i ==> tags@[j]@ != t@,
        decreases tags@.len() - i,
    {
        if same_text(tags[i].as_str(), t) {
            assert(tag_texts(tags@)[i as int] == t@);
            return true;
        }
        i = i + 1;
    }
    proof {
        if tag_texts(tags@).contains(t@) {
            let k = choose|k: int| 0 <= k < tag_texts(tags@).len() && tag_texts(tags@)[k] == t@;
            assert(tags@[k]@ == t@);
        }
    }
    false
}

/// Adds `requested` to `tags`, each tag once, and returns the tags that
/// were not there before, in the order they were asked for.
pub fn add_tags(tags: &mut Vec<String>, requested: &Vec<String>) -> (added: Vec<String>)
    ensures
        tag_texts(final(tags)@) == add_tags_spec(tag_texts(old(tags)@), tag_texts(requested@)),
        tag_texts(final(tags)@) == tag_texts(old(tags)@) + tag_texts(added@),
{
    let mut added: Vec<String> = Vec::new();
    let mut i: usize = 0;
    while i < requested.len()
        invariant
            i <= requested@.len(),
            tag_texts(tags@) == add_tags_spec(
                tag_texts(old(tags)@),
                tag_texts(requested@.subrange(0, i as int)),
            ),
            tag_texts(tags@) == tag_texts(old(tags)@) + tag_texts(added@),
        decreases requested@.len() - i,
    {
        let ghost req_i = tag_texts(requested@.subrange(0, i as int + 1));
        assert(req_i.drop_last() =~= tag_texts(requested@.subrange(0, i as int)));
        assert(req_i.last() == requested@[i as int]@);
        if !contains_tag(tags, requested[i].as_str()) {
            let ghost t0 = tags@;
            let ghost a0 = added@;
            tags.push(requested[i].clone());
            added.push(requested[i].clone());
            assert(tag_texts(tags@) =~= tag_texts(t0).push(requested@[i as int]@));
            assert(tag_texts(added@) =~= tag_texts(a0).push(requested@[i as int]@));
            assert(tag_texts(tags@) =~= tag_texts(old(tags)@) + tag_texts(added@));
        }
        i = i + 1;
        assert(tag_texts(tags@) =~= add_tags_spec(
            tag_texts(old(tags)@),
            tag_texts(requested@.subrange(0, i as int)),
        ));
    }
    assert(requested@.subrange(0, requested@.len() as int) =~= requested@);
    added
}

/// Removes every tag of `requested` from `tags`.
pub fn remove_tags(tags: &mut Vec<String>, requested: &Vec<String>)
    ensures
        tag_texts(final(tags)@) == remove_tags_spec(tag_texts(old(tags)@), tag_texts(requested@)),
{
    let mut kept: Vec<String> = Vec::new();
    let mut i: usize = 0;
    while i < tags.len()
        invariant
            tags@ == old(tags)@,
            i <= tags@.len(),
            tag_texts(kept@) == remove_tags_spec(
                tag_texts(tags@.subrange(0, i as int)),
                tag_texts(requested@),
            ),
        decreases tags@.len() - i,
    {
        let ghost pre = tag_texts(tags@.subrange(0, i as int + 1));
        assert(pre.drop_last() =~= tag_texts(tags@.subrange(0, i as int)));
        assert(pre.last() == tags@[i as int]@);
        if !contains_tag(requested, tags[i].as_str()) {
            let ghost k0 = kept@;
            kept.push(tags[i].clone());
            assert(tag_texts(kept@) =~= tag_texts(k0).push(tags@[i as int]@));
        }
        i = i + 1;
    }
    assert(tags@.subrange(0, tags@.len() as int) =~= tags@);
    *tags = kept;
}

/// Replaces the tags with `requested`, each tag once.
pub fn set_tags(tags: &mut Vec<String>, requested: &Vec<String>)
    ensures
        tag_texts(final(tags)@) == add_tags_spec(Seq::empty(), tag_texts(requested@)),
{
    let mut fresh: Vec<String> = Vec::new();
    assert(tag_texts(fresh@) =~= Seq::<Seq<char>>::empty());
    let _ = add_tags(&mut fresh, requested);
    *tags = fresh;
}

} // verus!
