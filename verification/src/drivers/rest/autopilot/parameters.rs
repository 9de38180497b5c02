use vstd::prelude::*;

use crate::text::{find_char, next_char_index, str_eq, string_views};

verus! {

/// Vehicle type and version of a parameter directory named `<type>-<version>[-...]`.
pub open spec fn split_directory(name: Seq<char>) -> Option<(Seq<char>, Seq<char>)> {
    let d = next_char_index(name, '-', 0);
    if d >= name.len() {
        None
    } else {
        let e = next_char_index(name, '-', d + 1);
        Some((name.subrange(0, d), name.subrange(d + 1, e)))
    }
}

/// Position of the entry for `key`, or the number of entries when there is none.
pub open spec fn key_position(groups: Seq<(Seq<char>, Seq<Seq<char>>)>, key: Seq<char>) -> int
    decreases groups.len(),
{
    if groups.len() == 0 {
        0
    } else if key_position(groups.drop_last(), key) < groups.len() - 1 {
        key_position(groups.drop_last(), key)
    } else if groups.last().0 == key {
        groups.len() - 1
    } else {
        groups.len() as int
    }
}

/// The versions of each vehicle type, in the order the directories are listed; directory
/// names without a `-` are skipped.
pub open spec fn spec_parameters(names: Seq<Seq<char>>) -> Seq<(Seq<char>, Seq<Seq<char>>)>
    decreases names.len(),
{
    if names.len() == 0 {
        Seq::empty()
    } else {
        let groups = spec_parameters(names.drop_last());
        match split_directory(names.last()) {
            None => groups,
            Some((vehicle, version)) => {
                let k = key_position(groups, vehicle);
                if k < groups.len() {
                    groups.update(k, (vehicle, groups[k].1.push(version)))
                } else {
                    groups.push((vehicle, seq![version]))
                }
            },
        }
    }
}

/// The versions of the directories of vehicle type `t`, in directory order.
pub open spec fn versions_of(names: Seq<Seq<char>>, t: Seq<char>) -> Seq<Seq<char>>
    decreases names.len(),
{
    if names.len() == 0 {
        Seq::empty()
    } else {
        let rest = versions_of(names.drop_last(), t);
        match split_directory(names.last()) {
            Some((vehicle, version)) => if vehicle == t { rest.push(version) } else { rest },
            None => rest,
        }
    }
}

/// Whether a directory is one of vehicle type `t`.
pub open spec fn directory_of_type(name: Seq<char>, t: Seq<char>) -> bool {
    match split_directory(name) {
        Some((vehicle, _)) => vehicle == t,
        None => false,
    }
}

/// Whether the groups hold an entry for `t`.
pub open spec fn has_key(groups: Seq<(Seq<char>, Seq<Seq<char>>)>, t: Seq<char>) -> bool {
    exists|i: int| 0 <= i < groups.len() && (#[trigger] groups[i]).0 == t
}

/// What the parameter groups are: one entry per vehicle type that some directory names,
/// each type once, each with the versions of its directories in directory order.
pub proof fn lemma_parameters_groups(names: Seq<Seq<char>>)
    ensures
        forall|i: int, j: int| 0 <= i < j < spec_parameters(names).len()
            ==> (#[trigger] spec_parameters(names)[i]).0 != (#[trigger] spec_parameters(names)[j]).0,
        forall|t: Seq<char>| has_key(spec_parameters(names), t) <==> exists|k: int| 0 <= k < names.len()
            && #[trigger] directory_of_type(names[k], t),
        forall|i: int| 0 <= i < spec_parameters(names).len()
            ==> (#[trigger] spec_parameters(names)[i]).1 == versions_of(names, spec_parameters(names)[i].0),
    decreases names.len(),
{
    if names.len() > 0 {
        let d = names.drop_last();
        let g = spec_parameters(d);
        let r = spec_parameters(names);
        lemma_parameters_groups(d);
        assert forall|k: int| 0 <= k < d.len() implies #[trigger] d[k] == names[k] by {}
        match split_directory(names.last()) {
            None => {
                assert forall|t: Seq<char>| has_key(r, t) <==> exists|k: int| 0 <= k < names.len()
                    && #[trigger] directory_of_type(names[k], t) by {
                    if exists|k: int| 0 <= k < names.len() && #[trigger] directory_of_type(names[k], t) {
                        let k = choose|k: int| 0 <= k < names.len() && #[trigger] directory_of_type(names[k], t);
                        assert(k < d.len());
                        assert(split_directory(d[k]) == split_directory(names[k]));
                    }
                }
                assert forall|i: int| 0 <= i < r.len() implies (#[trigger] r[i]).1 == versions_of(names, r[i].0) by {
                    assert(r[i] == g[i]);
                }
            },
            Some((vehicle, version)) => {
                lemma_key_position(g, vehicle);
                let p = key_position(g, vehicle);
                assert forall|t: Seq<char>| has_key(r, t) <==> exists|k: int| 0 <= k < names.len()
                    && #[trigger] directory_of_type(names[k], t) by {
                    if has_key(r, t) {
                        let i = choose|i: int| 0 <= i < r.len() && (#[trigger] r[i]).0 == t;
                        if t == vehicle {
                            assert(directory_of_type(names[names.len() - 1], t));
                        } else {
                            if p < g.len() {
                                assert(r[i] == g.update(p, (vehicle, g[p].1.push(version)))[i]);
                            } else {
                                assert(r[i] == g.push((vehicle, seq![version]))[i]);
                            }
                            assert(i < g.len());
                            assert(g[i].0 == t);
                            assert(has_key(g, t));
                            let k = choose|k: int| 0 <= k < d.len() && #[trigger] directory_of_type(d[k], t);
                            assert(split_directory(names[k]) == split_directory(d[k]));
                        }
                    }
                    if exists|k: int| 0 <= k < names.len() && #[trigger] directory_of_type(names[k], t) {
                        let k = choose|k: int| 0 <= k < names.len() && #[trigger] directory_of_type(names[k], t);
                        if t == vehicle {
                            if p < g.len() {
                                assert(r[p].0 == t);
                            } else {
                                assert(r[g.len() as int].0 == t);
                            }
                        } else {
                            assert(k < d.len());
                            assert(split_directory(d[k]) == split_directory(names[k]));
                            assert(directory_of_type(d[k], t));
                            assert(has_key(g, t));
                            let i = choose|i: int| 0 <= i < g.len() && (#[trigger] g[i]).0 == t;
                            if p < g.len() {
                                assert(i != p);
                                assert(r[i] == g.update(p, (vehicle, g[p].1.push(version)))[i]);
                            } else {
                                assert(r[i] == g.push((vehicle, seq![version]))[i]);
                            }
                            assert(r[i].0 == t);
                        }
                    }
                }
                if p >= g.len() {
                    assert(!has_key(g, vehicle));
                    assert(versions_of(d, vehicle).len() == 0) by {
                        lemma_versions_empty(d, vehicle);
                    }
                }
                assert forall|i: int| 0 <= i < r.len() implies (#[trigger] r[i]).1 == versions_of(names, r[i].0) by {
                    if i < g.len() && i != p {
                        assert(r[i] == g[i]);
                    }
                }
            },
        }
    }
}

/// A type without an entry has no versions.
proof fn lemma_versions_empty(names: Seq<Seq<char>>, t: Seq<char>)
    requires
        !has_key(spec_parameters(names), t),
    ensures
        versions_of(names, t).len() == 0,
    decreases names.len(),
{
    if names.len() > 0 {
        let d = names.drop_last();
        let g = spec_parameters(d);
        let r = spec_parameters(names);
        lemma_key_position(g, t);
        match split_directory(names.last()) {
            None => {
                lemma_versions_empty(d, t);
            },
            Some((vehicle, version)) => {
                lemma_key_position(g, vehicle);
                let p = key_position(g, vehicle);
                if vehicle == t {
                    if p < g.len() {
                        assert(r[p].0 == t);
                    } else {
                        assert(r[g.len() as int].0 == t);
                    }
                }
                if has_key(g, t) {
                    let i = choose|i: int| 0 <= i < g.len() && (#[trigger] g[i]).0 == t;
                    assert(r[i].0 == t);
                }
                lemma_versions_empty(d, t);
            },
        }
    }
}

/// `key_position` finds the entry for `key`, or the number of entries when there is none.
pub proof fn lemma_key_position(groups: Seq<(Seq<char>, Seq<Seq<char>>)>, key: Seq<char>)
    ensures
        0 <= key_position(groups, key) <= groups.len(),
        key_position(groups, key) < groups.len() ==> groups[key_position(groups, key)].0 == key,
        key_position(groups, key) == groups.len() ==> forall|i: int| 0 <= i < groups.len() ==> #[trigger] groups[i].0 != key,
        forall|i: int| 0 <= i < key_position(groups, key) ==> #[trigger] groups[i].0 != key,
    decreases groups.len(),
{
    if groups.len() > 0 {
        lemma_key_position(groups.drop_last(), key);
        assert forall|i: int| 0 <= i < groups.len() - 1 implies #[trigger] groups[i] == groups.drop_last()[i] by {}
    }
}

/// The versions of each vehicle type among the parameter directories: a directory named
/// `<type>-<version>` adds `<version>` to the versions of `<type>`.
pub fn parameters(directory_names: &Vec<String>) -> (r: Vec<(String, Vec<String>)>)
    ensures
        r@.len() == spec_parameters(string_views(directory_names@)).len(),
        forall|i: int| 0 <= i < r@.len() ==> {
            let g = #[trigger] spec_parameters(string_views(directory_names@))[i];
            &&& r@[i].0@ == g.0
            &&& r@[i].1@.map_values(|v: String| v@) == g.1
        },
{
    let mut groups: Vec<(String, Vec<String>)> = Vec::new();
    let ghost names = string_views(directory_names@);
    let mut k: usize = 0;
    while k < directory_names.len()
        invariant
            0 <= k <= directory_names@.len(),
            names == string_views(directory_names@),
            groups@.len() == spec_parameters(names.subrange(0, k as int)).len(),
            forall|i: int| 0 <= i < groups@.len() ==> {
                let g = #[trigger] spec_parameters(names.subrange(0, k as int))[i];
                &&& groups@[i].0@ == g.0
                &&& groups@[i].1@.map_values(|v: String| v@) == g.1
            },
        decreases directory_names@.len() - k,
    {
        let ghost before = spec_parameters(names.subrange(0, k as int));
        assert(names.subrange(0, k + 1).drop_last() =~= names.subrange(0, k as int));
        let name = directory_names[k].as_str();
        let n = name.unicode_len();
        let d = find_char(name, '-', 0);
        if d < n {
            let e = find_char(name, '-', d + 1);
            let vehicle = name.substring_char(0, d).to_string();
            let version = name.substring_char(d + 1, e).to_string();
            let mut pos: usize = 0;
            while pos < groups.len() && !str_eq(groups[pos].0.as_str(), vehicle.as_str())
                invariant
                    0 <= pos <= groups@.len(),
                    groups@.len() == before.len(),
                    forall|i: int| 0 <= i < groups@.len() ==> #[trigger] groups@[i].0@ == before[i].0,
                    forall|i: int| 0 <= i < pos ==> #[trigger] before[i].0 != vehicle@,
                decreases groups@.len() - pos,
            {
                pos = pos + 1;
            }
            proof {
                lemma_key_position(before, vehicle@);
                if pos < groups@.len() {
                    assert(before[pos as int].0 == vehicle@);
                    if key_position(before, vehicle@) < pos {
                        let q = key_position(before, vehicle@);
                        assert(before[q].0 != vehicle@);
                    }
                    assert(key_position(before, vehicle@) == pos);
                } else {
                    if key_position(before, vehicle@) < groups@.len() {
                        let q = key_position(before, vehicle@);
                        assert(before[q].0 != vehicle@);
                    }
                }
            }
            let ghost after = spec_parameters(names.subrange(0, k + 1));
            if pos < groups.len() {
                let mut entry = groups.remove(pos);
                let ghost old_versions = entry.1@;
                entry.1.push(version);
                assert(entry.1@.map_values(|v: String| v@) =~= old_versions.map_values(|v: String| v@).push(version@));
                groups.insert(pos, entry);
                proof {
                    assert forall|i: int| 0 <= i < groups@.len() implies {
                        let g = #[trigger] after[i];
                        &&& groups@[i].0@ == g.0
                        &&& groups@[i].1@.map_values(|v: String| v@) == g.1
                    } by {
                        assert(after[i] == before.update(pos as int, (vehicle@, before[pos as int].1.push(version@)))[i]);
                    }
                }
            } else {
                let mut versions: Vec<String> = Vec::new();
                versions.push(version);
                assert(versions@.map_values(|v: String| v@) =~= seq![version@]);
                groups.push((vehicle, versions));
                proof {
                    assert forall|i: int| 0 <= i < groups@.len() implies {
                        let g = #[trigger] after[i];
                        &&& groups@[i].0@ == g.0
                        &&& groups@[i].1@.map_values(|v: String| v@) == g.1
                    } by {
                        assert(after[i] == before.push((vehicle@, seq![version@]))[i]);
                    }
                }
            }
        }
        k = k + 1;
    }
    assert(names.subrange(0, directory_names@.len() as int) =~= names);
    groups
}

} // verus!
