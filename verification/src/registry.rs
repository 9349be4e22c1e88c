//! The registry of rented movies: a keyed in-memory store with one record per
//! movie name. It is backed by a vector whose names are pairwise distinct and
//! is specified as a map from name to record.

use vstd::prelude::*;
use crate::genre::Genre;
use crate::text::str_eq;

verus! {

/// One rental: a movie's name, its genre, the rental duration in days, and
/// the local time (milliseconds since the Unix epoch) it was last rented or
/// had its duration updated.
pub struct Movie {
    pub name: String,
    pub genre: Genre,
    pub duration: i32,
    pub rented_at: i64,
}

/// The mathematical image of one rental record.
pub ghost struct MovieModel {
    pub name: Seq<char>,
    pub genre: Genre,
    pub duration: int,
    pub rented_at: int,
}

impl View for Movie {
    type V = MovieModel;

    open spec fn view(&self) -> MovieModel {
        MovieModel {
            name: self.name@,
            genre: self.genre,
            duration: self.duration as int,
            rented_at: self.rented_at as int,
        }
    }
}

impl Movie {
    /// An identical record, field for field.
    pub fn duplicate(&self) -> (r: Movie)
        ensures
            r@ == self@,
    {
        Movie {
            name: self.name.clone(),
            genre: self.genre,
            duration: self.duration,
            rented_at: self.rented_at,
        }
    }
}

/// Whether the names of the records in the sequence are pairwise distinct.
pub open spec fn names_distinct(s: Seq<Movie>) -> bool {
    forall|i: int, j: int|
        #![trigger s[i], s[j]]
        0 <= i < j < s.len() ==> s[i]@.name != s[j]@.name
}

/// The map from movie name to record that a sequence of records denotes;
/// later entries shadow earlier ones of the same name.
pub closed spec fn map_of(s: Seq<Movie>) -> Map<Seq<char>, MovieModel>
    decreases s.len(),
{
    if s.len() == 0 {
        Map::empty()
    } else {
        map_of(s.drop_last()).insert(s.last()@.name, s.last()@)
    }
}

/// A name is a key of `map_of(s)` exactly when some record in `s` carries it.
proof fn lemma_map_of_contains(s: Seq<Movie>)
    ensures
        forall|n: Seq<char>|
            #[trigger] map_of(s).contains_key(n) <==> (exists|i: int|
                0 <= i < s.len() && (#[trigger] s[i])@.name == n),
    decreases s.len(),
{
    if s.len() > 0 {
        lemma_map_of_contains(s.drop_last());
        assert forall|n: Seq<char>| #[trigger]
            map_of(s).contains_key(n) implies (exists|i: int|
            0 <= i < s.len() && (#[trigger] s[i])@.name == n) by {
            if n == s.last()@.name {
                assert(s[s.len() - 1]@.name == n);
            } else {
                assert(map_of(s.drop_last()).contains_key(n));
                let i = choose|i: int| 0 <= i < s.drop_last().len() && (#[trigger] s.drop_last()[i])@.name == n;
                assert(s.drop_last()[i] == s[i]);
                assert(s[i]@.name == n);
            }
        }
        assert forall|n: Seq<char>|
            (exists|i: int| 0 <= i < s.len() && (#[trigger] s[i])@.name == n) implies #[trigger]
            map_of(s).contains_key(n) by {
            let i = choose|i: int| 0 <= i < s.len() && (#[trigger] s[i])@.name == n;
            if i == s.len() - 1 {
                assert(map_of(s) == map_of(s.drop_last()).insert(s.last()@.name, s.last()@));
                assert(map_of(s).contains_key(s.last()@.name));
            } else {
                assert(s.drop_last()[i] == s[i]);
                assert(s.drop_last()[i]@.name == n);
                assert(map_of(s.drop_last()).contains_key(n));
                assert(map_of(s).contains_key(n));
            }
        }
    }
}

/// With distinct names, `map_of(s)` is finite, has one key per record, and
/// sends each record's name to that record.
proof fn lemma_map_of_index(s: Seq<Movie>)
    requires
        names_distinct(s),
    ensures
        map_of(s).dom().finite(),
        map_of(s).dom().len() == s.len(),
        forall|i: int|
            0 <= i < s.len() ==> map_of(s).contains_key((#[trigger] s[i])@.name)
                && map_of(s)[s[i]@.name] == s[i]@,
    decreases s.len(),
{
    if s.len() > 0 {
        let d = s.drop_last();
        lemma_map_of_index(d);
        lemma_map_of_contains(d);
        assert(forall|i: int| 0 <= i < d.len() ==> (#[trigger] d[i])@.name == s[i]@.name);
        assert(!map_of(d).contains_key(s.last()@.name));
        assert forall|i: int| 0 <= i < s.len() implies map_of(s).contains_key(
            (#[trigger] s[i])@.name,
        ) && map_of(s)[s[i]@.name] == s[i]@ by {
            if i < s.len() - 1 {
                assert(d[i] == s[i]);
                assert(s[i]@.name != s.last()@.name);
            }
        }
    }
}

/// Replacing the record at a position by one of the same name turns the map
/// into an insertion under that name.
proof fn lemma_map_of_update(s: Seq<Movie>, i: int, m: Movie)
    requires
        names_distinct(s),
        0 <= i < s.len(),
        m@.name == s[i]@.name,
    ensures
        names_distinct(s.update(i, m)),
        map_of(s.update(i, m)) == map_of(s).insert(m@.name, m@),
    decreases s.len(),
{
    let su = s.update(i, m);
    assert forall|p: int, q: int| #![trigger su[p], su[q]]
        0 <= p < q < su.len() implies su[p]@.name != su[q]@.name by {
        assert(s[p]@.name != s[q]@.name);
    }
    if i == s.len() - 1 {
        assert(su.drop_last() =~= s.drop_last());
        assert(map_of(su) == map_of(s.drop_last()).insert(m@.name, m@));
        assert(map_of(s).insert(m@.name, m@) =~= map_of(s.drop_last()).insert(m@.name, m@));
    } else {
        let d = s.drop_last();
        assert(su.drop_last() =~= d.update(i, m));
        assert(su.last() == s.last());
        lemma_map_of_update(d, i, m);
        assert(map_of(su) == map_of(d.update(i, m)).insert(s.last()@.name, s.last()@));
        assert(m@.name != s.last()@.name);
        assert(map_of(d).insert(m@.name, m@).insert(s.last()@.name, s.last()@) =~= map_of(
            d,
        ).insert(s.last()@.name, s.last()@).insert(m@.name, m@));
    }
}

/// Appending a record with a fresh name turns the map into an insertion under
/// that name.
proof fn lemma_map_of_push(s: Seq<Movie>, m: Movie)
    requires
        names_distinct(s),
        forall|j: int| 0 <= j < s.len() ==> (#[trigger] s[j])@.name != m@.name,
    ensures
        names_distinct(s.push(m)),
        map_of(s.push(m)) == map_of(s).insert(m@.name, m@),
{
    let sp = s.push(m);
    assert forall|p: int, q: int| #![trigger sp[p], sp[q]]
        0 <= p < q < sp.len() implies sp[p]@.name != sp[q]@.name by {
        if q < s.len() {
            assert(s[p]@.name != s[q]@.name);
        } else {
            assert(sp[p] == s[p]);
        }
    }
    assert(sp.drop_last() =~= s);
    assert(sp.last() == m);
}

/// Deleting the record at a position removes exactly its name from the map.
proof fn lemma_map_of_remove(s: Seq<Movie>, i: int)
    requires
        names_distinct(s),
        0 <= i < s.len(),
    ensures
        names_distinct(s.remove(i)),
        map_of(s.remove(i)) == map_of(s).remove(s[i]@.name),
    decreases s.len(),
{
    let sr = s.remove(i);
    assert forall|p: int, q: int| #![trigger sr[p], sr[q]]
        0 <= p < q < sr.len() implies sr[p]@.name != sr[q]@.name by {
        let p0 = if p < i { p } else { p + 1 };
        let q0 = if q < i { q } else { q + 1 };
        assert(sr[p] == s[p0] && sr[q] == s[q0]);
        assert(s[p0]@.name != s[q0]@.name);
    }
    let d = s.drop_last();
    if i == s.len() - 1 {
        assert(sr =~= d);
        lemma_map_of_contains(d);
        assert(!map_of(d).contains_key(s[i]@.name));
        assert(map_of(s).remove(s[i]@.name) =~= map_of(d));
    } else {
        lemma_map_of_remove(d, i);
        assert(sr.drop_last() =~= d.remove(i));
        assert(sr.last() == s.last());
        assert(map_of(sr) == map_of(d.remove(i)).insert(s.last()@.name, s.last()@));
        assert(d[i] == s[i]);
        assert(s[i]@.name != s.last()@.name);
        assert(map_of(d).remove(s[i]@.name).insert(s.last()@.name, s.last()@) =~= map_of(
            d,
        ).insert(s.last()@.name, s.last()@).remove(s[i]@.name));
    }
}

/// The registry: an in-memory store holding exactly one record per movie
/// name. Inserting an existing name replaces the whole prior record.
pub struct Movies {
    records: Vec<Movie>,
}

impl View for Movies {
    type V = Map<Seq<char>, MovieModel>;

    closed spec fn view(&self) -> Map<Seq<char>, MovieModel> {
        map_of(self.records@)
    }
}

impl Movies {
    /// The store's internal invariant: no two records share a name.
    pub closed spec fn wf(&self) -> bool {
        names_distinct(self.records@)
    }

    /// Creates an empty registry.
    pub fn new() -> (r: Movies)
        ensures
            r.wf(),
            r@ == Map::<Seq<char>, MovieModel>::empty(),
    {
        Movies { records: Vec::new() }
    }

    /// The position of the record with the given name, if any.
    fn find_index(&self, name: &str) -> (r: Option<usize>)
        ensures
            match r {
                Some(i) => i < self.records@.len() && self.records@[i as int]@.name == name@,
                None => forall|j: int|
                    0 <= j < self.records@.len() ==> (#[trigger] self.records@[j])@.name != name@,
            },
    {
        let mut i: usize = 0;
        let n = self.records.len();
        while i < n
            invariant
                i <= n,
                n == self.records@.len(),
                forall|j: int| 0 <= j < i ==> (#[trigger] self.records@[j])@.name != name@,
            decreases n - i,
        {
            if str_eq(self.records[i].name.as_str(), name) {
                return Some(i);
            }
            i = i + 1;
        }
        None
    }

    /// Inserts the record under its own name, replacing in full any prior
    /// record stored under that name.
    pub fn add(&mut self, movie: Movie)
        requires
            old(self).wf(),
        ensures
            final(self).wf(),
            final(self)@ == old(self)@.insert(movie@.name, movie@),
    {
        let idx = self.find_index(movie.name.as_str());
        match idx {
            Some(i) => {
                proof {
                    lemma_map_of_update(self.records@, i as int, movie);
                }
                self.records[i] = movie;
            },
            None => {
                proof {
                    lemma_map_of_push(self.records@, movie);
                }
                self.records.push(movie);
            },
        }
    }

    /// Copies of all stored records, one per name, in unspecified order.
    pub fn get_all(&self) -> (r: Vec<Movie>)
        requires
            self.wf(),
        ensures
            r@.len() == self@.dom().len(),
            forall|i: int|
                0 <= i < r@.len() ==> self@.contains_key((#[trigger] r@[i])@.name)
                    && self@[r@[i]@.name] == r@[i]@,
            names_distinct(r@),
    {
        let mut out: Vec<Movie> = Vec::new();
        let n = self.records.len();
        let mut i: usize = 0;
        while i < n
            invariant
                i <= n,
                n == self.records@.len(),
                out@.len() == i,
                forall|j: int| 0 <= j < i ==> (#[trigger] out@[j])@ == self.records@[j]@,
            decreases n - i,
        {
            out.push(self.records[i].duplicate());
            i = i + 1;
        }
        proof {
            lemma_map_of_index(self.records@);
            assert forall|p: int, q: int| #![trigger out@[p], out@[q]]
                0 <= p < q < out@.len() implies out@[p]@.name != out@[q]@.name by {
                assert(self.records@[p]@.name != self.records@[q]@.name);
            }
        }
        out
    }

    /// Deletes the record with the given name, if present, and reports
    /// whether one was found.
    pub fn remove(&mut self, name: &str) -> (found: bool)
        requires
            old(self).wf(),
        ensures
            final(self).wf(),
            found == old(self)@.contains_key(name@),
            final(self)@ == old(self)@.remove(name@),
    {
        proof {
            lemma_map_of_contains(self.records@);
        }
        let idx = self.find_index(name);
        match idx {
            Some(i) => {
                proof {
                    lemma_map_of_remove(self.records@, i as int);
                }
                self.records.remove(i);
                true
            },
            None => {
                proof {
                    assert(!old(self)@.contains_key(name@));
                    assert(old(self)@.remove(name@) =~= old(self)@);
                }
                false
            },
        }
    }

    /// Sets the duration of the record with the given name and stamps it with
    /// the given time; reports whether a record was found. Absent names leave
    /// the registry untouched.
    pub fn update_at(&mut self, name: &str, duration: i32, now: i64) -> (found: bool)
        requires
            old(self).wf(),
        ensures
            final(self).wf(),
            found == old(self)@.contains_key(name@),
            found ==> final(self)@ == old(self)@.insert(
                name@,
                (MovieModel {
                    name: name@,
                    genre: old(self)@[name@].genre,
                    duration: duration as int,
                    rented_at: now as int,
                }),
            ),
            !found ==> final(self)@ == old(self)@,
    {
        proof {
            lemma_map_of_contains(self.records@);
            lemma_map_of_index(self.records@);
        }
        let idx = self.find_index(name);
        match idx {
            Some(i) => {
                let prev = &self.records[i];
                let replacement = Movie {
                    name: prev.name.clone(),
                    genre: prev.genre,
                    duration,
                    rented_at: now,
                };
                proof {
                    lemma_map_of_update(self.records@, i as int, replacement);
                }
                self.records[i] = replacement;
                true
            },
            None => false,
        }
    }

    /// Sets the duration of the record with the given name and stamps it with
    /// the current local time; reports whether a record was found.
    pub fn update(&mut self, name: &str, duration: i32) -> (found: bool)
        requires
            old(self).wf(),
        ensures
            final(self).wf(),
            found == old(self)@.contains_key(name@),
            found ==> final(self)@ == old(self)@.insert(
                name@,
                (MovieModel {
                    name: name@,
                    genre: old(self)@[name@].genre,
                    duration: duration as int,
                    rented_at: final(self)@[name@].rented_at,
                }),
            ),
            !found ==> final(self)@ == old(self)@,
    {
        let now = now_millis();
        self.update_at(name, duration, now)
    }
}

/// Relies on chrono::Local::now for the current local wall-clock time,
/// expressed in milliseconds since the Unix epoch. Nothing is assumed of the
/// value: the clock may move arbitrarily between calls.
#[verifier::external_body]
pub(crate) fn now_millis() -> i64 {
    chrono::Local::now().timestamp_millis()
}

} // verus!
