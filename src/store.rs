use crate::config::str_eq;
use crate::decimal::{dec_spec, lemma_dec_injective, lemma_dec_len};
use crate::persist::{version_dir_name, version_name};
use vstd::prelude::*;
use vstd::set_lib::lemma_len_subset;

verus! {

/// Attempt `n` is the first whose version name is not taken.
pub open spec fn is_first_free(taken: Set<Seq<char>>, date: Seq<char>, name: Seq<char>, n: nat) -> bool {
    !taken.contains(version_name(date, name, n)) && forall|j: nat|
        j < n ==> taken.contains(#[trigger] version_name(date, name, j))
}

/// The first attempt whose version name is not taken.
pub open spec fn first_free(taken: Set<Seq<char>>, date: Seq<char>, name: Seq<char>) -> nat {
    choose|n: nat| is_first_free(taken, date, name, n)
}

/// Distinct attempts give distinct version names.
pub proof fn lemma_version_name_injective(date: Seq<char>, name: Seq<char>, a: nat, b: nat)
    requires
        version_name(date, name, a) == version_name(date, name, b),
    ensures
        a == b,
{
    lemma_dec_len(a);
    lemma_dec_len(b);
    let base = date + seq!['-'] + name + seq!['-'];
    if a != 0 && b != 0 {
        let va = version_name(date, name, a);
        let vb = version_name(date, name, b);
        assert(va.subrange(base.len() as int, va.len() as int) =~= dec_spec(a));
        assert(vb.subrange(base.len() as int, vb.len() as int) =~= dec_spec(b));
        lemma_dec_injective(a, b);
    }
}

/// The first free attempt is the only attempt that is first free.
pub proof fn lemma_first_free_unique(taken: Set<Seq<char>>, date: Seq<char>, name: Seq<char>, n: nat)
    requires
        is_first_free(taken, date, name, n),
    ensures
        first_free(taken, date, name) == n,
{
    let m = first_free(taken, date, name);
    assert(is_first_free(taken, date, name, m));
    if m < n {
        assert(taken.contains(version_name(date, name, m)));
    } else if m > n {
        assert(taken.contains(version_name(date, name, n)));
    }
}

/// The live mappings of a list of pairs of certificate name and version; a
/// later pair replaces an earlier one of the same name.
pub open spec fn pairs_map(pairs: Seq<(Seq<char>, Seq<char>)>) -> Map<Seq<char>, Seq<char>>
    decreases pairs.len(),
{
    if pairs.len() == 0 {
        Map::empty()
    } else {
        pairs_map(pairs.drop_last()).insert(pairs.last().0, pairs.last().1)
    }
}

/// The state of a store after a certificate for `name` was stored on `date`:
/// the first free version name is claimed and `name` goes live on it.
pub open spec fn store_spec(
    versions: Set<Seq<char>>,
    live: Map<Seq<char>, Seq<char>>,
    date: Seq<char>,
    name: Seq<char>,
) -> (Set<Seq<char>>, Map<Seq<char>, Seq<char>>, Seq<char>) {
    let dir = version_name(date, name, first_free(versions, date, name));
    (versions.insert(dir), live.insert(name, dir), dir)
}

/// The version directories of a store and its live mappings.
pub struct CertStore {
    versions: Vec<String>,
    live: Vec<(String, String)>,
}

impl CertStore {
    /// The names of the version directories.
    pub closed spec fn version_set(&self) -> Set<Seq<char>> {
        self.versions@.map_values(|s: String| s@).to_set()
    }

    /// For each certificate name with a live mapping, the version it points
    /// at.
    pub closed spec fn live_map(&self) -> Map<Seq<char>, Seq<char>> {
        pairs_map(self.live@.map_values(|p: (String, String)| (p.0@, p.1@)))
    }

    /// Every live mapping points at an existing version.
    pub open spec fn wf(&self) -> bool {
        forall|n: Seq<char>|
            #[trigger] self.live_map().contains_key(n) ==> self.version_set().contains(
                self.live_map()[n],
            )
    }

    /// An empty store.
    pub fn new() -> (r: CertStore)
        ensures
            r.wf(),
            r.version_set() == Set::<Seq<char>>::empty(),
            r.live_map() == Map::<Seq<char>, Seq<char>>::empty(),
    {
        let r = CertStore { versions: Vec::new(), live: Vec::new() };
        assert(r.version_set() =~= Set::<Seq<char>>::empty());
        assert(r.live@.map_values(|p: (String, String)| (p.0@, p.1@)) =~= Seq::<
            (Seq<char>, Seq<char>),
        >::empty());
        r
    }

    /// Records an existing version directory.
    pub fn add_version(&mut self, dir: String)
        requires
            old(self).wf(),
        ensures
            final(self).wf(),
            final(self).version_set() == old(self).version_set().insert(dir@),
            final(self).live_map() == old(self).live_map(),
    {
        let ghost old_names = self.versions@.map_values(|s: String| s@);
        let ghost d = dir@;
        self.versions.push(dir);
        proof {
            let names = self.versions@.map_values(|s: String| s@);
            assert(names =~= old_names.push(d));
            assert(names.to_set() =~= old_names.to_set().insert(d)) by {
                assert forall|x: Seq<char>| names.contains(x) implies old_names.contains(x) || x
                    == d by {
                    let k = choose|k: int| 0 <= k < names.len() && names[k] == x;
                    if k < old_names.len() {
                        assert(old_names[k] == x);
                    }
                }
                assert forall|x: Seq<char>| old_names.contains(x) implies names.contains(x) by {
                    let k = choose|k: int| 0 <= k < old_names.len() && old_names[k] == x;
                    assert(names[k] == x);
                }
                assert(names[names.len() - 1] == d);
            }
            assert(self.live_map() == old(self).live_map());
            assert forall|k: Seq<char>| #[trigger] self.live_map().contains_key(k) implies self.version_set().contains(
                self.live_map()[k],
            ) by {
                assert(old(self).version_set().contains(old(self).live_map()[k]));
            }
        }
    }

    /// Whether a version directory of this name exists.
    pub fn has_version(&self, dir: &str) -> (r: bool)
        ensures
            r == self.version_set().contains(dir@),
    {
        let ghost names = self.versions@.map_values(|s: String| s@);
        let mut i: usize = 0;
        while i < self.versions.len()
            invariant
                i <= self.versions.len(),
                names == self.versions@.map_values(|s: String| s@),
                forall|j: int| 0 <= j < i ==> self.versions@[j]@ != dir@,
            decreases self.versions.len() - i,
        {
            if str_eq(self.versions[i].as_str(), dir) {
                assert(names[i as int] == dir@);
                assert(names.to_set().contains(dir@));
                return true;
            }
            i += 1;
        }
        assert(!names.to_set().contains(dir@)) by {
            if names.contains(dir@) {
                let k = choose|k: int| 0 <= k < names.len() && names[k] == dir@;
                assert(self.versions@[k]@ == dir@);
            }
        }
        false
    }

    /// Claims a version directory for `name` on `date`: `<date>-<name>`, or,
    /// when that is taken, `<date>-<name>-<n>` for the smallest `n` free.
    pub fn claim_version(&mut self, date: &str, name: &str) -> (r: String)
        requires
            old(self).wf(),
        ensures
            final(self).wf(),
            r@ == version_name(date@, name@, first_free(old(self).version_set(), date@, name@)),
            final(self).version_set() == old(self).version_set().insert(r@),
            final(self).live_map() == old(self).live_map(),
    {
        let ghost taken = self.version_set();
        proof {
            self.versions@.map_values(|s: String| s@).lemma_cardinality_of_set();
        }
        let count = self.versions.len();
        let mut n: usize = 0;
        let ghost mut seen: Set<Seq<char>> = Set::empty();
        let mut dir = version_dir_name(date, name, n as u64);
        while self.has_version(dir.as_str())
            invariant
                taken == self.version_set(),
                taken.finite(),
                taken.len() <= self.versions@.len(),
                count == self.versions@.len(),
                dir@ == version_name(date@, name@, n as nat),
                seen.finite(),
                seen.len() == n,
                seen.subset_of(taken),
                forall|x: Seq<char>|
                    #[trigger] seen.contains(x) ==> exists|j: nat|
                        j < n && x == #[trigger] version_name(date@, name@, j),
                forall|j: nat| j < n ==> taken.contains(#[trigger] version_name(date@, name@, j)),
            decreases taken.len() - n,
        {
            proof {
                if seen.contains(dir@) {
                    let j = choose|j: nat| j < n && dir@ == version_name(date@, name@, j);
                    lemma_version_name_injective(date@, name@, j, n as nat);
                }
                seen = seen.insert(dir@);
                lemma_len_subset(seen, taken);
                assert(n + 1 <= self.versions@.len());
                assert forall|x: Seq<char>| #[trigger] seen.contains(x) implies exists|j: nat|
                    j < n + 1 && x == #[trigger] version_name(date@, name@, j) by {
                    if x == dir@ {
                        assert(x == version_name(date@, name@, n as nat));
                    }
                }
            }
            n = n + 1;
            dir = version_dir_name(date, name, n as u64);
        }
        proof {
            assert(is_first_free(taken, date@, name@, n as nat));
            lemma_first_free_unique(taken, date@, name@, n as nat);
        }
        self.add_version(dir.clone());
        dir
    }

    /// Points the live mapping of `name` at `version`, replacing any earlier
    /// mapping of `name`.
    pub fn set_live(&mut self, name: &str, version: &str)
        requires
            old(self).wf(),
            old(self).version_set().contains(version@),
        ensures
            final(self).wf(),
            final(self).version_set() == old(self).version_set(),
            final(self).live_map() == old(self).live_map().insert(name@, version@),
    {
        let ghost old_pairs = self.live@.map_values(|p: (String, String)| (p.0@, p.1@));
        self.live.push((String::from_str(name), String::from_str(version)));
        proof {
            let pairs = self.live@.map_values(|p: (String, String)| (p.0@, p.1@));
            assert(pairs.drop_last() =~= old_pairs);
            assert(pairs.last() == (name@, version@));
            assert(self.live_map() == old(self).live_map().insert(name@, version@));
            assert forall|k: Seq<char>| #[trigger] self.live_map().contains_key(k) implies self.version_set().contains(
                self.live_map()[k],
            ) by {
                if k != name@ {
                    assert(old(self).live_map().contains_key(k));
                }
            }
        }
    }

    /// Stores a certificate for `name` issued on `date`: claims the first free
    /// version directory and points the live mapping of `name` at it.
    pub fn store_certificate(&mut self, date: &str, name: &str) -> (r: String)
        requires
            old(self).wf(),
        ensures
            final(self).wf(),
            (final(self).version_set(), final(self).live_map(), r@) == store_spec(
                old(self).version_set(),
                old(self).live_map(),
                date@,
                name@,
            ),
    {
        let dir = self.claim_version(date, name);
        self.set_live(name, dir.as_str());
        dir
    }

    /// The version the live mapping of `name` points at, if any.
    pub fn live_version(&self, name: &str) -> (r: Option<String>)
        ensures
            match r {
                Some(v) => self.live_map().contains_key(name@) && self.live_map()[name@] == v@,
                None => !self.live_map().contains_key(name@),
            },
    {
        let ghost pairs = self.live@.map_values(|p: (String, String)| (p.0@, p.1@));
        let mut i: usize = self.live.len();
        assert(pairs.subrange(0, i as int) =~= pairs);
        while i > 0
            invariant
                i <= self.live.len(),
                pairs == self.live@.map_values(|p: (String, String)| (p.0@, p.1@)),
                pairs_map(pairs).contains_key(name@) == pairs_map(
                    pairs.subrange(0, i as int),
                ).contains_key(name@),
                pairs_map(pairs).contains_key(name@) ==> pairs_map(pairs)[name@] == pairs_map(
                    pairs.subrange(0, i as int),
                )[name@],
            decreases i,
        {
            proof {
                let sub = pairs.subrange(0, i as int);
                assert(sub.drop_last() =~= pairs.subrange(0, i - 1));
            }
            assert(pairs[i - 1] == (self.live@[i - 1].0@, self.live@[i - 1].1@));
            if str_eq(self.live[i - 1].0.as_str(), name) {
                return Some(self.live[i - 1].1.clone());
            }
            i -= 1;
        }
        assert(pairs.subrange(0, 0) =~= Seq::<(Seq<char>, Seq<char>)>::empty());
        None
    }
}

/// Storing twice for the same name on the same date claims `<date>-<name>`,
/// then `<date>-<name>-1`, two distinct directories, and leaves the live
/// mapping of the name on the second.
pub proof fn lemma_same_day_collision(
    versions: Set<Seq<char>>,
    live: Map<Seq<char>, Seq<char>>,
    date: Seq<char>,
    name: Seq<char>,
)
    requires
        !versions.contains(version_name(date, name, 0)),
        !versions.contains(version_name(date, name, 1)),
    ensures
        ({
            let (v1, l1, d1) = store_spec(versions, live, date, name);
            let (v2, l2, d2) = store_spec(v1, l1, date, name);
            &&& d1 == date + seq!['-'] + name
            &&& d2 == date + seq!['-'] + name + seq!['-', '1']
            &&& d1 != d2
            &&& l2.contains_key(name)
            &&& l2[name] == d2
        }),
{
    assert(is_first_free(versions, date, name, 0));
    lemma_first_free_unique(versions, date, name, 0);
    let (v1, l1, d1) = store_spec(versions, live, date, name);
    assert(d1 == version_name(date, name, 0));
    if version_name(date, name, 1) == version_name(date, name, 0) {
        lemma_version_name_injective(date, name, 1, 0);
    }
    assert(is_first_free(v1, date, name, 1));
    lemma_first_free_unique(v1, date, name, 1);
    let (v2, l2, d2) = store_spec(v1, l1, date, name);
    assert(dec_spec(1) == seq!['1']);
    assert(d2 =~= date + seq!['-'] + name + seq!['-', '1']);
    assert(d1.len() != d2.len());
}

} // verus!
