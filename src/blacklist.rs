use vstd::prelude::*;
use vstd::string::*;

verus! {

/// The characters of each string of a sequence.
pub open spec fn views_of(v: Seq<String>) -> Seq<Seq<char>> {
    v.map_values(|s: String| s@)
}

/// A version identifier with every leading `v` removed.
pub open spec fn strip_prefix_v(s: Seq<char>) -> Seq<char>
    decreases s.len(),
{
    if s.len() > 0 && s[0] == 'v' {
        strip_prefix_v(s.drop_first())
    } else {
        s
    }
}

/// Whether `version` names a blacklisted version, in its raw form or with
/// its prefix stripped.
pub open spec fn bad_in(set: Set<Seq<char>>, version: Seq<char>) -> bool {
    set.contains(strip_prefix_v(version)) || set.contains(version)
}

proof fn lemma_push_to_set(s: Seq<Seq<char>>, x: Seq<char>)
    ensures
        s.push(x).to_set() == s.to_set().insert(x),
{
    assert forall|y: Seq<char>| #[trigger] s.push(x).to_set().contains(y) == s.to_set().insert(x).contains(y) by {
        assert(s.push(x)[s.len() as int] == x);
        if s.to_set().insert(x).contains(y) && y != x {
            let j = choose|j: int| 0 <= j < s.len() && s[j] == y;
            assert(s.push(x)[j] == y);
        }
        if s.push(x).to_set().contains(y) {
            let j = choose|j: int| 0 <= j < s.push(x).len() && s.push(x)[j] == y;
            if j < s.len() {
                assert(s[j] == y);
            }
        }
    }
    assert(s.push(x).to_set() =~= s.to_set().insert(x));
}

/// The set of versions known to be broken.
pub struct UpdateState {
    ignored_versions: Vec<String>,
}

impl View for UpdateState {
    type V = Set<Seq<char>>;

    closed spec fn view(&self) -> Set<Seq<char>> {
        views_of(self.ignored_versions@).to_set()
    }
}

/// Number of leading `v` characters of `s`.
fn prefix_len(s: &str) -> (r: usize)
    ensures
        r <= s@.len(),
        s@.subrange(r as int, s@.len() as int) == strip_prefix_v(s@),
{
    let n = s.unicode_len();
    let mut i: usize = 0;
    assert(s@.subrange(0, n as int) =~= s@);
    while i < n && s.get_char(i) == 'v'
        invariant
            n == s@.len(),
            i <= n,
            strip_prefix_v(s@.subrange(i as int, n as int)) == strip_prefix_v(s@),
        decreases n - i,
    {
        assert(s@.subrange(i as int, n as int).drop_first() =~= s@.subrange(i + 1, n as int));
        i = i + 1;
    }
    assert(s@.subrange(0, n as int) =~= s@);
    i
}

/// `s` with every leading `v` removed.
pub fn trim_version_prefix(s: &str) -> (r: String)
    ensures
        r@ == strip_prefix_v(s@),
{
    let start = prefix_len(s);
    let n = s.unicode_len();
    String::from_str(s.substring_char(start, n))
}

impl UpdateState {
    /// Every entry occurs once.
    pub closed spec fn wf(&self) -> bool {
        views_of(self.ignored_versions@).no_duplicates()
    }

    /// An empty blacklist.
    pub fn new() -> (r: Self)
        ensures
            r.wf(),
            r@ == Set::<Seq<char>>::empty(),
    {
        let r = UpdateState { ignored_versions: Vec::new() };
        assert(views_of(r.ignored_versions@) =~= Seq::<Seq<char>>::empty());
        r
    }

    /// A blacklist holding exactly the given versions; repeated entries are kept once.
    pub fn from_versions(list: Vec<String>) -> (r: Self)
        ensures
            r.wf(),
            r@ == views_of(list@).to_set(),
    {
        let mut r = UpdateState::new();
        let mut i: usize = 0;
        while i < list.len()
            invariant
                i <= list@.len(),
                r.wf(),
                r@ == views_of(list@.subrange(0, i as int)).to_set(),
            decreases list@.len() - i,
        {
            proof {
                assert(views_of(list@.subrange(0, i + 1)) =~= views_of(list@.subrange(0, i as int)).push(list@[i as int]@));
                lemma_push_to_set(views_of(list@.subrange(0, i as int)), list@[i as int]@);
            }
            r.mark_bad(list[i].clone());
            i = i + 1;
        }
        assert(list@.subrange(0, i as int) =~= list@);
        r
    }

    /// The entries, each once, in the form that is written to storage.
    pub fn versions(&self) -> (r: Vec<String>)
        requires
            self.wf(),
        ensures
            views_of(r@).no_duplicates(),
            views_of(r@).to_set() == self@,
            r@.len() == self@.len(),
    {
        let mut r: Vec<String> = Vec::new();
        let mut i: usize = 0;
        while i < self.ignored_versions.len()
            invariant
                i <= self.ignored_versions@.len(),
                r@.len() == i,
                views_of(r@) == views_of(self.ignored_versions@).subrange(0, i as int),
            decreases self.ignored_versions@.len() - i,
        {
            let ghost before = r@;
            let c = self.ignored_versions[i].clone();
            r.push(c);
            assert(r@ == before.push(c));
            assert forall|k: int| 0 <= k < i implies #[trigger] views_of(r@)[k] == views_of(before)[k] by {
                assert(r@[k] == before[k]);
            }
            assert(views_of(r@)[i as int] == views_of(self.ignored_versions@)[i as int]);
            assert(views_of(r@) =~= views_of(self.ignored_versions@).subrange(0, i + 1));
            i = i + 1;
        }
        assert(views_of(r@) =~= views_of(self.ignored_versions@));
        proof {
            views_of(r@).unique_seq_to_set();
        }
        r
    }

    /// Whether `version` is one of the entries, compared character by character.
    fn contains(&self, version: &String) -> (r: bool)
        ensures
            r == self@.contains(version@),
    {
        let mut i: usize = 0;
        while i < self.ignored_versions.len()
            invariant
                i <= self.ignored_versions@.len(),
                forall|j: int| 0 <= j < i ==> #[trigger] self.ignored_versions@[j]@ != version@,
            decreases self.ignored_versions@.len() - i,
        {
            if self.ignored_versions[i] == *version {
                assert(views_of(self.ignored_versions@)[i as int] == version@);
                return true;
            }
            i = i + 1;
        }
        proof {
            if views_of(self.ignored_versions@).to_set().contains(version@) {
                let j = choose|j: int| 0 <= j < views_of(self.ignored_versions@).len() && views_of(self.ignored_versions@)[j] == version@;
                assert(self.ignored_versions@[j]@ == version@);
            }
        }
        false
    }

    /// Whether `version` is blacklisted, either as written or with its
    /// leading `v` prefix removed.
    pub fn is_bad(&self, version: &str) -> (r: bool)
        ensures
            r == bad_in(self@, version@),
    {
        let clean = trim_version_prefix(version);
        let raw = String::from_str(version);
        self.contains(&clean) || self.contains(&raw)
    }

    /// Records `version` as broken; a version already present stays once.
    pub fn mark_bad(&mut self, version: String)
        requires
            old(self).wf(),
        ensures
            final(self).wf(),
            final(self)@ == old(self)@.insert(version@),
    {
        if !self.contains(&version) {
            let ghost before = views_of(self.ignored_versions@);
            self.ignored_versions.push(version);
            proof {
                assert(views_of(self.ignored_versions@) =~= before.push(version@));
                assert(before.push(version@).to_set() =~= before.to_set().insert(version@)) by {
                    lemma_push_to_set(before, version@);
                }
            }
        } else {
            assert(self@.insert(version@) =~= self@);
        }
    }
}

/// Every blacklisted version is reported bad as written; one that does not
/// itself begin with the prefix is also reported bad with the prefix added.
pub proof fn lemma_listed_version_is_bad(set: Set<Seq<char>>, v: Seq<char>)
    requires
        set.contains(v),
    ensures
        bad_in(set, v),
        (v.len() == 0 || v[0] != 'v') ==> bad_in(set, seq!['v'] + v),
{
    let w = seq!['v'] + v;
    assert(w.drop_first() =~= v);
    assert(w[0] == 'v');
    assert(strip_prefix_v(w) == strip_prefix_v(v));
}

/// Marking a version bad twice leaves the same set as marking it once, and a
/// duplicate-free listing of that set holds the version at exactly one place.
pub proof fn lemma_mark_bad_idempotent(set: Set<Seq<char>>, v: Seq<char>, listed: Seq<Seq<char>>)
    requires
        listed.no_duplicates(),
        listed.to_set() == set.insert(v).insert(v),
    ensures
        set.insert(v).insert(v) == set.insert(v),
        exists|i: int|
            0 <= i < listed.len() && listed[i] == v && forall|j: int|
                0 <= j < listed.len() && #[trigger] listed[j] == v ==> j == i,
{
    assert(set.insert(v).insert(v) =~= set.insert(v));
    assert(listed.to_set().contains(v));
    let i = choose|i: int| 0 <= i < listed.len() && listed[i] == v;
    assert forall|j: int| 0 <= j < listed.len() && #[trigger] listed[j] == v implies j == i by {}
}

/// Storing a blacklist as its listing and building it back from that listing
/// gives the same set: `listed` is what `versions` returned for `state`, and
/// `reloaded` what `from_versions` built from it. The listing holds each
/// version once.
pub proof fn lemma_reload_round_trip(state: UpdateState, listed: Seq<String>, reloaded: UpdateState)
    requires
        views_of(listed).no_duplicates(),
        views_of(listed).to_set() == state@,
        reloaded@ == views_of(listed).to_set(),
    ensures
        reloaded@ == state@,
        views_of(listed).len() == reloaded@.len(),
{
    views_of(listed).unique_seq_to_set();
}

} // verus!
