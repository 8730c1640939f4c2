//! Saved profiles are kept in file order and looked up by name: the first
//! profile with a name is the one that counts. This module defines lookup,
//! replace-or-append and removal over their contents, the loops that carry
//! them out, and what holds of them together.
use vstd::prelude::*;
use crate::settings_store::{Profile, ProfileView, profile_views};
use crate::text::same_text;

verus! {

/// Position of the first profile called `name`.
pub open spec fn index_named(ps: Seq<ProfileView>, name: Seq<char>) -> Option<int>
    decreases ps.len(),
{
    if ps.len() == 0 {
        None
    } else {
        match index_named(ps.drop_last(), name) {
            Some(i) => Some(i),
            None => if ps.last().name == name { Some(ps.len() - 1) } else { None },
        }
    }
}

/// The first profile called `name`.
pub open spec fn find_named(ps: Seq<ProfileView>, name: Seq<char>) -> Option<ProfileView> {
    match index_named(ps, name) {
        Some(i) => Some(ps[i]),
        None => None,
    }
}

/// The profiles after saving `p`: the first profile of the same name is
/// replaced, or `p` is appended when there is none.
pub open spec fn upserted(ps: Seq<ProfileView>, p: ProfileView) -> Seq<ProfileView> {
    match index_named(ps, p.name) {
        Some(i) => ps.update(i, p),
        None => ps.push(p),
    }
}

/// The profiles not called `name`, in their order.
pub open spec fn without_named(ps: Seq<ProfileView>, name: Seq<char>) -> Seq<ProfileView>
    decreases ps.len(),
{
    if ps.len() == 0 {
        seq![]
    } else {
        let rest = without_named(ps.drop_last(), name);
        if ps.last().name == name { rest } else { rest.push(ps.last()) }
    }
}

/// No two profiles share a name.
pub open spec fn names_unique(ps: Seq<ProfileView>) -> bool {
    forall|i: int, j: int| 0 <= i < j < ps.len() ==> ps[i].name != ps[j].name
}

/// `index_named` finds the first profile of the name, or reports that there
/// is none.
pub proof fn lemma_index_named(ps: Seq<ProfileView>, name: Seq<char>)
    ensures
        match index_named(ps, name) {
            Some(i) => {
                &&& 0 <= i < ps.len()
                &&& ps[i].name == name
                &&& forall|j: int| 0 <= j < i ==> ps[j].name != name
            },
            None => forall|j: int| 0 <= j < ps.len() ==> ps[j].name != name,
        },
    decreases ps.len(),
{
    if ps.len() > 0 {
        let dl = ps.drop_last();
        lemma_index_named(dl, name);
        assert(forall|j: int| 0 <= j < dl.len() ==> dl[j] == ps[j]);
        assert(ps.last() == ps[ps.len() - 1]);
    }
}

/// A position that holds the first profile of a name is what `index_named`
/// gives.
pub proof fn lemma_index_named_at(ps: Seq<ProfileView>, name: Seq<char>, i: int)
    requires
        0 <= i < ps.len(),
        ps[i].name == name,
        forall|j: int| 0 <= j < i ==> ps[j].name != name,
    ensures
        index_named(ps, name) == Some(i),
{
    lemma_index_named(ps, name);
}

/// Looking a name up in a list with one more profile at the end.
pub proof fn lemma_find_push(ps: Seq<ProfileView>, x: ProfileView, name: Seq<char>)
    ensures
        find_named(ps.push(x), name) == match find_named(ps, name) {
            Some(v) => Some(v),
            None => if x.name == name { Some(x) } else { None },
        },
{
    assert(ps.push(x).drop_last() =~= ps);
    lemma_index_named(ps, name);
}

/// Reading a profile back after saving it gives what was saved.
pub proof fn lemma_save_then_find(ps: Seq<ProfileView>, p: ProfileView)
    ensures
        find_named(upserted(ps, p), p.name) == Some(p),
{
    lemma_index_named(ps, p.name);
    match index_named(ps, p.name) {
        Some(i) => {
            let u = ps.update(i, p);
            lemma_index_named_at(u, p.name, i);
        },
        None => {
            lemma_find_push(ps, p, p.name);
        },
    }
}

/// Saving a profile leaves what is found under every other name unchanged.
pub proof fn lemma_save_keeps_other_names(ps: Seq<ProfileView>, p: ProfileView, name: Seq<char>)
    requires
        name != p.name,
    ensures
        find_named(upserted(ps, p), name) == find_named(ps, name),
{
    lemma_index_named(ps, p.name);
    match index_named(ps, p.name) {
        Some(i) => {
            let u = ps.update(i, p);
            lemma_index_named(ps, name);
            match index_named(ps, name) {
                Some(k) => {
                    lemma_index_named_at(u, name, k);
                },
                None => {
                    lemma_index_named(u, name);
                    if index_named(u, name) is Some {
                        let k = index_named(u, name)->0;
                        assert(u[k] == ps[k]);
                    }
                },
            }
        },
        None => {
            lemma_find_push(ps, p, name);
        },
    }
}

/// Saving replaces a profile of the same name, else it appends one.
pub proof fn lemma_save_length(ps: Seq<ProfileView>, p: ProfileView)
    ensures
        upserted(ps, p).len() == ps.len() + (if find_named(ps, p.name) is Some { 0int } else { 1int }),
{
    lemma_index_named(ps, p.name);
}

/// Saving never gives two profiles the same name.
pub proof fn lemma_save_keeps_names_unique(ps: Seq<ProfileView>, p: ProfileView)
    requires
        names_unique(ps),
    ensures
        names_unique(upserted(ps, p)),
{
    lemma_index_named(ps, p.name);
    let u = upserted(ps, p);
    match index_named(ps, p.name) {
        Some(i) => {
            assert forall|a: int, b: int| 0 <= a < b < u.len() implies u[a].name != u[b].name by {
                if a == i {
                    assert(ps[a].name == p.name);
                } else if b == i {
                    assert(ps[b].name == p.name);
                }
            }
        },
        None => {
            assert forall|a: int, b: int| 0 <= a < b < u.len() implies u[a].name != u[b].name by {
                if b == ps.len() {
                    assert(u[a] == ps[a]);
                }
            }
        },
    }
}

/// After deleting a name nothing is found under it.
pub proof fn lemma_delete_then_find(ps: Seq<ProfileView>, name: Seq<char>)
    ensures
        find_named(without_named(ps, name), name) is None,
    decreases ps.len(),
{
    if ps.len() > 0 {
        lemma_delete_then_find(ps.drop_last(), name);
        let rest = without_named(ps.drop_last(), name);
        if ps.last().name != name {
            lemma_find_push(rest, ps.last(), name);
        }
    } else {
        lemma_index_named(without_named(ps, name), name);
    }
}

/// Deleting a name leaves what is found under every other name unchanged.
pub proof fn lemma_delete_keeps_other_names(ps: Seq<ProfileView>, name: Seq<char>, other: Seq<char>)
    requires
        other != name,
    ensures
        find_named(without_named(ps, name), other) == find_named(ps, other),
    decreases ps.len(),
{
    if ps.len() > 0 {
        let dl = ps.drop_last();
        lemma_delete_keeps_other_names(dl, name, other);
        assert(dl.push(ps.last()) =~= ps);
        lemma_find_push(dl, ps.last(), other);
        if ps.last().name != name {
            lemma_find_push(without_named(dl, name), ps.last(), other);
        }
    } else {
        lemma_index_named(ps, other);
        lemma_index_named(without_named(ps, name), other);
    }
}

/// Every profile kept by a deletion was in the list, and none is called
/// after the deleted name.
proof fn lemma_delete_keeps_members(ps: Seq<ProfileView>, name: Seq<char>)
    ensures
        forall|k: int| 0 <= k < without_named(ps, name).len() ==> {
            &&& ps.contains(#[trigger] without_named(ps, name)[k])
            &&& without_named(ps, name)[k].name != name
        },
    decreases ps.len(),
{
    if ps.len() > 0 {
        let dl = ps.drop_last();
        lemma_delete_keeps_members(dl, name);
        let rest = without_named(dl, name);
        assert forall|k: int| 0 <= k < without_named(ps, name).len() implies {
            &&& ps.contains(#[trigger] without_named(ps, name)[k])
            &&& without_named(ps, name)[k].name != name
        } by {
            if k < rest.len() {
                let j = choose|j: int| 0 <= j < dl.len() && dl[j] == rest[k];
                assert(ps[j] == rest[k]);
            } else {
                assert(ps[ps.len() - 1] == ps.last());
            }
        }
    }
}

/// Deleting never gives two profiles the same name.
pub proof fn lemma_delete_keeps_names_unique(ps: Seq<ProfileView>, name: Seq<char>)
    requires
        names_unique(ps),
    ensures
        names_unique(without_named(ps, name)),
    decreases ps.len(),
{
    if ps.len() > 0 {
        let dl = ps.drop_last();
        assert(names_unique(dl));
        lemma_delete_keeps_names_unique(dl, name);
        lemma_delete_keeps_members(dl, name);
        let rest = without_named(dl, name);
        if ps.last().name != name {
            let w = rest.push(ps.last());
            assert forall|a: int, b: int| 0 <= a < b < w.len() implies w[a].name != w[b].name by {
                if b == rest.len() {
                    assert(dl.contains(rest[a]));
                    let j = choose|j: int| 0 <= j < dl.len() && dl[j] == rest[a];
                    assert(ps[j] == dl[j]);
                    assert(ps[ps.len() - 1] == ps.last());
                }
            }
        }
    }
}

/// Removing the profiles of a name from a list where one of them was
/// replaced by another profile of that name.
proof fn lemma_delete_after_replace(ps: Seq<ProfileView>, i: int, x: ProfileView, name: Seq<char>)
    requires
        0 <= i < ps.len(),
        ps[i].name == name,
        x.name == name,
    ensures
        without_named(ps.update(i, x), name) == without_named(ps, name),
    decreases ps.len(),
{
    let u = ps.update(i, x);
    if i == ps.len() - 1 {
        assert(u.drop_last() =~= ps.drop_last());
    } else {
        assert(u.drop_last() =~= ps.drop_last().update(i, x));
        lemma_delete_after_replace(ps.drop_last(), i, x, name);
    }
}

/// Deleting a name undoes saving a profile of that name.
pub proof fn lemma_save_then_delete(ps: Seq<ProfileView>, p: ProfileView)
    ensures
        without_named(upserted(ps, p), p.name) == without_named(ps, p.name),
{
    lemma_index_named(ps, p.name);
    match index_named(ps, p.name) {
        Some(i) => {
            lemma_delete_after_replace(ps, i, p, p.name);
        },
        None => {
            assert(ps.push(p).drop_last() =~= ps);
        },
    }
}

/// The position of the first profile called `name` in `profiles`.
pub fn find_profile(profiles: &Vec<Profile>, name: &str) -> (r: Option<usize>)
    ensures
        match r {
            Some(i) => {
                &&& i < profiles@.len()
                &&& profiles@[i as int].name@ == name@
                &&& index_named(profile_views(profiles@), name@) == Some(i as int)
            },
            None => index_named(profile_views(profiles@), name@) is None,
        },
{
    let ghost ps = profile_views(profiles@);
    let mut i: usize = 0;
    while i < profiles.len()
        invariant
            i <= profiles@.len(),
            ps == profile_views(profiles@),
            forall|j: int| 0 <= j < i ==> ps[j].name != name@,
        decreases profiles@.len() - i,
    {
        if same_text(profiles[i].name.as_str(), name) {
            proof {
                lemma_index_named_at(ps, name@, i as int);
            }
            return Some(i);
        }
        i = i + 1;
    }
    proof {
        lemma_index_named(ps, name@);
    }
    None
}

/// The profiles of `profiles` not called `name`, in their order.
pub fn profiles_without(profiles: &Vec<Profile>, name: &str) -> (kept: Vec<Profile>)
    ensures
        profile_views(kept@) == without_named(profile_views(profiles@), name@),
{
    let ghost ps = profile_views(profiles@);
    let mut kept: Vec<Profile> = Vec::new();
    let mut i: usize = 0;
    while i < profiles.len()
        invariant
            i <= profiles@.len(),
            ps == profile_views(profiles@),
            profile_views(kept@) == without_named(ps.take(i as int), name@),
        decreases profiles@.len() - i,
    {
        assert(ps.take(i + 1).drop_last() =~= ps.take(i as int));
        if !same_text(profiles[i].name.as_str(), name) {
            let c = profiles[i].clone();
            kept.push(c);
        }
        assert(profile_views(kept@) =~= without_named(ps.take(i + 1), name@));
        i = i + 1;
    }
    assert(ps.take(profiles@.len() as int) =~= ps);
    kept
}

/// Copies of all `profiles`.
pub fn copy_profiles(profiles: &Vec<Profile>) -> (c: Vec<Profile>)
    ensures
        profile_views(c@) == profile_views(profiles@),
{
    let mut c: Vec<Profile> = Vec::new();
    let mut i: usize = 0;
    while i < profiles.len()
        invariant
            i <= profiles@.len(),
            c@.len() == i,
            profile_views(c@) == profile_views(profiles@).take(i as int),
        decreases profiles@.len() - i,
    {
        c.push(profiles[i].clone());
        assert(profile_views(c@) =~= profile_views(profiles@).take(i + 1));
        i = i + 1;
    }
    assert(profile_views(profiles@).take(profiles@.len() as int) =~= profile_views(profiles@));
    c
}

} // verus!
