//! Properties of the registry that relate several operations, stated over the
//! map model that the operations' contracts use.

use vstd::prelude::*;
use crate::registry::MovieModel;

verus! {

/// The registry reached from empty by adding the given records in order,
/// according to `Movies::add`'s contract: each add inserts under the record's
/// own name.
pub open spec fn registry_after_adds(adds: Seq<MovieModel>) -> Map<Seq<char>, MovieModel>
    decreases adds.len(),
{
    if adds.len() == 0 {
        Map::empty()
    } else {
        registry_after_adds(adds.drop_last()).insert(adds.last().name, adds.last())
    }
}

/// The set of distinct names among the added records.
pub open spec fn distinct_names(adds: Seq<MovieModel>) -> Set<Seq<char>> {
    adds.map_values(|m: MovieModel| m.name).to_set()
}

/// After any sequence of `add` calls on an empty registry, the stored names
/// are exactly the distinct names added, so the registry's size — the length
/// `get_all` reports — is the count of distinct names: duplicates overwrite,
/// they do not accumulate.
pub proof fn lemma_adds_count_distinct(adds: Seq<MovieModel>)
    ensures
        registry_after_adds(adds).dom() =~= distinct_names(adds),
        registry_after_adds(adds).dom().finite(),
        registry_after_adds(adds).dom().len() == distinct_names(adds).len(),
    decreases adds.len(),
{
    let names = adds.map_values(|m: MovieModel| m.name);
    if adds.len() == 0 {
        assert(registry_after_adds(adds).dom() =~= distinct_names(adds));
    } else {
        let d = adds.drop_last();
        lemma_adds_count_distinct(d);
        let dnames = d.map_values(|m: MovieModel| m.name);
        assert(names.drop_last() =~= dnames);
        assert forall|n: Seq<char>| #[trigger] names.to_set().contains(n) implies
            dnames.to_set().insert(adds.last().name).contains(n) by {
            let i = choose|i: int| 0 <= i < names.len() && names[i] == n;
            if i < names.len() - 1 {
                assert(dnames[i] == n);
                assert(dnames.contains(n));
            }
        }
        assert forall|n: Seq<char>|
            dnames.to_set().insert(adds.last().name).contains(n) implies #[trigger]
            names.to_set().contains(n) by {
            if n == adds.last().name {
                assert(names[names.len() - 1] == n);
                assert(names.contains(n));
            } else {
                let i = choose|i: int| 0 <= i < dnames.len() && dnames[i] == n;
                assert(names[i] == n);
                assert(names.contains(n));
            }
        }
        assert(distinct_names(adds) =~= distinct_names(d).insert(adds.last().name));
        assert(registry_after_adds(adds).dom() =~= registry_after_adds(d).dom().insert(
            adds.last().name,
        ));
    }
}

/// Adding a record and then removing its name succeeds exactly once: after
/// the add the name is present, so the removal finds it; afterwards the name
/// is absent, so removing it again finds nothing and changes nothing.
pub proof fn lemma_add_then_remove(reg: Map<Seq<char>, MovieModel>, r: MovieModel)
    ensures
        reg.insert(r.name, r).contains_key(r.name),
        !reg.insert(r.name, r).remove(r.name).contains_key(r.name),
        reg.insert(r.name, r).remove(r.name).remove(r.name) == reg.insert(r.name, r).remove(
            r.name,
        ),
{
    let once = reg.insert(r.name, r).remove(r.name);
    assert(once.remove(r.name) =~= once);
}

/// Updating a present record keeps the set of stored names, stores exactly
/// the requested duration, and moves the record's rental time forward — never
/// back — as long as the supplied time is not older than the stored one.
pub proof fn lemma_update_advances(
    reg: Map<Seq<char>, MovieModel>,
    name: Seq<char>,
    duration: int,
    now: int,
)
    requires
        reg.contains_key(name),
        now >= reg[name].rented_at,
    ensures
        ({
            let updated = reg.insert(
                name,
                (MovieModel {
                    name,
                    genre: reg[name].genre,
                    duration,
                    rented_at: now,
                }),
            );
            updated.dom() =~= reg.dom() && updated[name].duration == duration
                && updated[name].rented_at >= reg[name].rented_at
                && updated[name].genre == reg[name].genre
        }),
{
}

} // verus!
