//! Lists of named mappings and the map from name to mapping that such a
//! list stands for.

use vstd::prelude::*;
use crate::mapping::{Url, UrlView};
use crate::text::same_text;

verus! {

/// A list of named mappings, as mathematical values.
pub type Listing = Seq<(Seq<char>, UrlView)>;

/// Whether some entry of `urls` goes by `name`.
pub open spec fn has_name(urls: Listing, name: Seq<char>) -> bool {
    exists|i: int| 0 <= i < urls.len() && (#[trigger] urls[i]).0 == name
}

/// The place of an entry of `urls` that goes by `name`, if there is one.
pub open spec fn position(urls: Listing, name: Seq<char>) -> int {
    choose|i: int| 0 <= i < urls.len() && (#[trigger] urls[i]).0 == name
}

/// Whether no two entries of `urls` share a name.
pub open spec fn names_unique(urls: Listing) -> bool {
    forall|i: int, j: int|
        0 <= i < j < urls.len() ==> (#[trigger] urls[i]).0 != (#[trigger] urls[j]).0
}

/// The map from name to mapping that a list with unique names stands for.
pub open spec fn mappings(urls: Listing) -> Map<Seq<char>, UrlView> {
    Map::new(|name: Seq<char>| has_name(urls, name), |name: Seq<char>| urls[position(urls, name)].1)
}

/// The mathematical value of a list of named mappings.
pub open spec fn listing(urls: Seq<(String, Url)>) -> Listing {
    Seq::new(urls.len(), |i: int| (urls[i].0@, urls[i].1@))
}

/// In a list with unique names, the entry at a valid place is the one that
/// the map holds under its name.
pub proof fn lemma_mappings_at(urls: Listing, i: int)
    requires
        names_unique(urls),
        0 <= i < urls.len(),
    ensures
        has_name(urls, urls[i].0),
        position(urls, urls[i].0) == i,
        mappings(urls).dom().contains(urls[i].0),
        mappings(urls)[urls[i].0] == urls[i].1,
{
    let name = urls[i].0;
    assert(has_name(urls, name));
    let p = position(urls, name);
    assert(0 <= p < urls.len() && urls[p].0 == name);
    if p < i {
        assert(urls[p].0 != urls[i].0);
    } else if i < p {
        assert(urls[i].0 != urls[p].0);
    }
}

/// A name belongs to the map of a list exactly when an entry goes by it.
pub proof fn lemma_mappings_dom(urls: Listing, name: Seq<char>)
    ensures
        mappings(urls).dom().contains(name) <==> has_name(urls, name),
{
}

/// Adding an entry under a new name keeps the names unique and adds that
/// one pair to the map.
pub proof fn lemma_push(urls: Listing, name: Seq<char>, target: UrlView)
    requires
        names_unique(urls),
        !has_name(urls, name),
    ensures
        names_unique(urls.push((name, target))),
        mappings(urls.push((name, target))) == mappings(urls).insert(name, target),
{
    let after = urls.push((name, target));
    assert forall|i: int, j: int| 0 <= i < j < after.len() implies (#[trigger] after[i]).0 != (
    #[trigger] after[j]).0 by {
        if j < urls.len() {
            assert(urls[i].0 != urls[j].0);
        } else {
            assert(urls[i].0 != name);
        }
    }
    assert forall|n: Seq<char>| has_name(after, n) <==> (has_name(urls, n) || n == name) by {
        if has_name(urls, n) {
            let i = position(urls, n);
            assert(after[i].0 == n);
        }
        if n == name {
            assert(after[urls.len() as int].0 == n);
        }
        if has_name(after, n) {
            let i = position(after, n);
            if i < urls.len() {
                assert(urls[i].0 == n);
            }
        }
    }
    assert forall|n: Seq<char>| has_name(after, n) implies #[trigger] mappings(after)[n]
        == mappings(urls).insert(name, target)[n] by {
        let i = position(after, n);
        lemma_mappings_at(after, i);
        if i < urls.len() {
            assert(urls[i].0 == n);
            lemma_mappings_at(urls, i);
        }
    }
    assert(mappings(after) =~= mappings(urls).insert(name, target));
}

/// Replacing the target of an entry keeps the names unique and replaces
/// that one pair in the map.
pub proof fn lemma_update(urls: Listing, i: int, target: UrlView)
    requires
        names_unique(urls),
        0 <= i < urls.len(),
    ensures
        names_unique(urls.update(i, (urls[i].0, target))),
        mappings(urls.update(i, (urls[i].0, target))) == mappings(urls).insert(urls[i].0, target),
{
    let name = urls[i].0;
    let after = urls.update(i, (name, target));
    assert forall|a: int, b: int| 0 <= a < b < after.len() implies (#[trigger] after[a]).0 != (
    #[trigger] after[b]).0 by {
        assert(urls[a].0 != urls[b].0);
    }
    assert forall|n: Seq<char>| has_name(after, n) <==> has_name(urls, n) by {
        if has_name(urls, n) {
            let k = position(urls, n);
            assert(after[k].0 == n);
        }
        if has_name(after, n) {
            let k = position(after, n);
            assert(urls[k].0 == n);
        }
    }
    assert(has_name(urls, name));
    assert forall|n: Seq<char>| has_name(after, n) implies #[trigger] mappings(after)[n]
        == mappings(urls).insert(name, target)[n] by {
        let k = position(after, n);
        lemma_mappings_at(after, k);
        lemma_mappings_at(urls, k);
        if k != i {
            if k < i {
                assert(urls[k].0 != urls[i].0);
            } else {
                assert(urls[i].0 != urls[k].0);
            }
        }
    }
    assert(mappings(after) =~= mappings(urls).insert(name, target));
}

/// Taking an entry out keeps the names unique and takes its name out of
/// the map.
pub proof fn lemma_remove(urls: Listing, i: int)
    requires
        names_unique(urls),
        0 <= i < urls.len(),
    ensures
        names_unique(urls.remove(i)),
        mappings(urls.remove(i)) == mappings(urls).remove(urls[i].0),
{
    let name = urls[i].0;
    let after = urls.remove(i);
    assert forall|a: int, b: int| 0 <= a < b < after.len() implies (#[trigger] after[a]).0 != (
    #[trigger] after[b]).0 by {
        let a0 = if a < i { a } else { a + 1 };
        let b0 = if b < i { b } else { b + 1 };
        assert(after[a] == urls[a0]);
        assert(after[b] == urls[b0]);
        assert(urls[a0].0 != urls[b0].0);
    }
    assert forall|n: Seq<char>| has_name(after, n) <==> (has_name(urls, n) && n != name) by {
        if has_name(urls, n) && n != name {
            let k = position(urls, n);
            let k1 = if k < i { k } else { k - 1 };
            assert(after[k1] == urls[k]);
            assert(after[k1].0 == n);
        }
        if has_name(after, n) {
            let k = position(after, n);
            let k0 = if k < i { k } else { k + 1 };
            assert(after[k] == urls[k0]);
            assert(urls[k0].0 == n);
            if k0 < i {
                assert(urls[k0].0 != urls[i].0);
            } else {
                assert(urls[i].0 != urls[k0].0);
            }
        }
    }
    assert forall|n: Seq<char>| has_name(after, n) implies #[trigger] mappings(after)[n]
        == mappings(urls).remove(name)[n] by {
        let k = position(after, n);
        let k0 = if k < i { k } else { k + 1 };
        assert(after[k] == urls[k0]);
        lemma_mappings_at(after, k);
        lemma_mappings_at(urls, k0);
    }
    assert(mappings(after) =~= mappings(urls).remove(name));
}

/// A list with unique names stands for a finite map with as many pairs as
/// the list has entries.
pub proof fn lemma_mappings_len(urls: Listing)
    requires
        names_unique(urls),
    ensures
        mappings(urls).dom().finite(),
        mappings(urls).dom().len() == urls.len(),
    decreases urls.len(),
{
    if urls.len() == 0 {
        assert(mappings(urls).dom() =~= Set::<Seq<char>>::empty());
    } else {
        let rest = urls.drop_last();
        let last = urls.last();
        assert(urls =~= rest.push(last));
        assert forall|i: int, j: int| 0 <= i < j < rest.len() implies (#[trigger] rest[i]).0 != (
        #[trigger] rest[j]).0 by {
            assert(urls[i].0 != urls[j].0);
        }
        assert(!has_name(rest, last.0)) by {
            if has_name(rest, last.0) {
                let i = position(rest, last.0);
                assert(urls[i].0 != urls[urls.len() - 1].0);
            }
        }
        lemma_mappings_len(rest);
        lemma_push(rest, last.0, last.1);
        lemma_mappings_dom(rest, last.0);
        assert(mappings(urls).dom() =~= mappings(rest).dom().insert(last.0));
    }
}

/// The place of the first entry of `urls` called `name`, if there is one.
pub fn find_name(urls: &Vec<(String, Url)>, name: &str) -> (found: Option<usize>)
    ensures
        match found {
            Some(i) => i < urls.len() && listing(urls@)[i as int].0 == name@
                && forall|j: int| 0 <= j < i ==> (#[trigger] listing(urls@)[j]).0 != name@,
            None => !has_name(listing(urls@), name@),
        },
{
    let mut i: usize = 0;
    while i < urls.len()
        invariant
            i <= urls.len(),
            forall|j: int| 0 <= j < i ==> (#[trigger] listing(urls@)[j]).0 != name@,
        decreases urls.len() - i,
    {
        if same_text(urls[i].0.as_str(), name) {
            return Some(i);
        }
        i += 1;
    }
    None
}

/// Whether the entry at place `j` repeats the name of an earlier entry.
pub open spec fn repeats(urls: Listing, j: int) -> bool {
    exists|i: int| 0 <= i < j && (#[trigger] urls[i]).0 == urls[j].0
}

/// Whether `j` is the first place of `urls` whose entry repeats an earlier
/// name.
pub open spec fn first_repeat(urls: Listing, j: int) -> bool {
    &&& 0 <= j < urls.len()
    &&& repeats(urls, j)
    &&& forall|k: int| 0 <= k < j ==> !#[trigger] repeats(urls, k)
}

/// The first place whose entry repeats an earlier name; none exactly when
/// the names are unique.
pub fn find_repeat(urls: &Vec<(String, Url)>) -> (found: Option<usize>)
    ensures
        match found {
            Some(j) => first_repeat(listing(urls@), j as int),
            None => names_unique(listing(urls@)),
        },
{
    let mut j: usize = 0;
    while j < urls.len()
        invariant
            j <= urls.len(),
            forall|k: int| 0 <= k < j ==> !#[trigger] repeats(listing(urls@), k),
        decreases urls.len() - j,
    {
        let first = find_name(urls, urls[j].0.as_str());
        if let Some(i) = first {
            if i < j {
                assert(listing(urls@)[i as int].0 == listing(urls@)[j as int].0);
                return Some(j);
            }
        }
        assert(!repeats(listing(urls@), j as int)) by {
            assert(listing(urls@)[j as int].0 == urls[j as int].0@);
        }
        j += 1;
    }
    proof {
        let all = listing(urls@);
        assert forall|a: int, b: int| 0 <= a < b < all.len() implies (#[trigger] all[a]).0 != (
        #[trigger] all[b]).0 by {
            assert(!repeats(all, b));
        }
    }
    None
}

} // verus!
