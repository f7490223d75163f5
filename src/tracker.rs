use vstd::prelude::*;

use crate::names::{lemma_views_push, views_of, Namespace};
use crate::text::{decimal, decimal_string, join, joined, owned, str_eq};

verus! {

/// All of `names`, one after the other.
pub open spec fn concat_all(names: Seq<Seq<char>>) -> Seq<char>
    decreases names.len(),
{
    if names.len() == 0 {
        Seq::empty()
    } else {
        concat_all(names.drop_last()) + names.last()
    }
}

/// `prefix` and a counter: `prefix_autocxx<n>`.
pub open spec fn numbered(prefix: Seq<char>, n: nat) -> Seq<char> {
    prefix + "_autocxx"@ + decimal(n)
}

/// `prefix`, `_` and every name: longer than any of them.
pub open spec fn padded(names: Seq<Seq<char>>, prefix: Seq<char>) -> Seq<char> {
    prefix + "_"@ + concat_all(names)
}

/// The first of `numbered(prefix, n)`, `numbered(prefix, n + 1)`, ... that is
/// not among `names`, trying `fuel` of them before padding.
pub open spec fn first_free(names: Seq<Seq<char>>, prefix: Seq<char>, n: nat, fuel: nat) -> Seq<char>
    decreases fuel,
{
    if fuel == 0 {
        padded(names, prefix)
    } else if !names.contains(numbered(prefix, n)) {
        numbered(prefix, n)
    } else {
        first_free(names, prefix, n + 1, (fuel - 1) as nat)
    }
}

/// The namespace segments, the type name if any, and the item, joined by `_`.
pub open spec fn qualified_prefix(
    ns: Seq<Seq<char>>,
    owner_type: Option<Seq<char>>,
    found: Seq<char>,
) -> Seq<char> {
    let segs = match owner_type {
        Some(t) => ns.push(t),
        None => ns,
    };
    joined(segs.push(found), "_"@)
}

/// The name given to `found` when `names` are already taken: the name itself
/// if free; else prefixed by its namespace (and type); else that prefix with
/// the first free counter.
pub open spec fn allocated_name(
    names: Seq<Seq<char>>,
    owner_type: Option<Seq<char>>,
    found: Seq<char>,
    ns: Seq<Seq<char>>,
) -> Seq<char> {
    let prefix = qualified_prefix(ns, owner_type, found);
    if !names.contains(found) {
        found
    } else if !names.contains(prefix) {
        prefix
    } else {
        first_free(names, prefix, 1, names.len())
    }
}

proof fn lemma_concat_covers(names: Seq<Seq<char>>, s: Seq<char>)
    requires
        names.contains(s),
    ensures
        s.len() <= concat_all(names).len(),
    decreases names.len(),
{
    let i = choose|i: int| 0 <= i < names.len() && names[i] == s;
    if i < names.len() - 1 {
        assert(names.drop_last()[i] == s);
        lemma_concat_covers(names.drop_last(), s);
    }
}

proof fn lemma_padded_is_free(names: Seq<Seq<char>>, prefix: Seq<char>)
    ensures
        !names.contains(padded(names, prefix)),
{
    reveal_strlit("_");
    if names.contains(padded(names, prefix)) {
        lemma_concat_covers(names, padded(names, prefix));
    }
}

proof fn lemma_first_free_is_free(names: Seq<Seq<char>>, prefix: Seq<char>, n: nat, fuel: nat)
    ensures
        !names.contains(first_free(names, prefix, n, fuel)),
    decreases fuel,
{
    if fuel == 0 {
        lemma_padded_is_free(names, prefix);
    } else if names.contains(numbered(prefix, n)) {
        lemma_first_free_is_free(names, prefix, n + 1, (fuel - 1) as nat);
    }
}

/// The allocated name is never one already taken.
pub proof fn lemma_allocated_is_free(
    names: Seq<Seq<char>>,
    owner_type: Option<Seq<char>>,
    found: Seq<char>,
    ns: Seq<Seq<char>>,
)
    ensures
        !names.contains(allocated_name(names, owner_type, found, ns)),
{
    lemma_first_free_is_free(names, qualified_prefix(ns, owner_type, found), 1, names.len());
}

proof fn lemma_first_free_len(names: Seq<Seq<char>>, prefix: Seq<char>, n: nat, fuel: nat)
    ensures
        first_free(names, prefix, n, fuel).len() >= prefix.len(),
    decreases fuel,
{
    if fuel > 0 && names.contains(numbered(prefix, n)) {
        lemma_first_free_len(names, prefix, n + 1, (fuel - 1) as nat);
    }
}

/// A name allocated for a non-empty item is not empty.
pub proof fn lemma_allocated_non_empty(
    names: Seq<Seq<char>>,
    owner_type: Option<Seq<char>>,
    found: Seq<char>,
    ns: Seq<Seq<char>>,
)
    requires
        found.len() > 0,
    ensures
        allocated_name(names, owner_type, found, ns).len() > 0,
{
    let prefix = qualified_prefix(ns, owner_type, found);
    let segs = match owner_type {
        Some(t) => ns.push(t),
        None => ns,
    }.push(found);
    assert(segs.last() == found);
    assert(prefix.len() >= found.len());
    lemma_first_free_len(names, prefix, 1, names.len());
}

/// Hands out names in the flat namespace of the bridge, each at most once.
pub struct BridgeNameTracker {
    names: Vec<String>,
}

impl View for BridgeNameTracker {
    type V = Seq<Seq<char>>;

    closed spec fn view(&self) -> Seq<Seq<char>> {
        views_of(self.names@)
    }
}

impl BridgeNameTracker {
    /// A tracker that has handed out nothing.
    pub fn new() -> (r: Self)
        ensures
            r@ == Seq::<Seq<char>>::empty(),
    {
        let r = BridgeNameTracker { names: Vec::new() };
        assert(r@ =~= Seq::<Seq<char>>::empty());
        r
    }

    /// Whether `name` was handed out.
    pub fn is_taken(&self, name: &str) -> (r: bool)
        ensures
            r == self@.contains(name@),
    {
        let mut i: usize = 0;
        while i < self.names.len()
            invariant
                i <= self.names.len(),
                forall|k: int| 0 <= k < i ==> self@[k] != name@,
            decreases self.names.len() - i,
        {
            if str_eq(self.names[i].as_str(), name) {
                assert(self@[i as int] == name@);
                return true;
            }
            i = i + 1;
        }
        false
    }

    /// `prefix`, `_` and every name handed out.
    fn pad(&self, prefix: &str) -> (r: String)
        ensures
            r@ == padded(self@, prefix@),
    {
        let mut r = owned(prefix);
        r.append("_");
        let ghost start = r@;
        let mut i: usize = 0;
        while i < self.names.len()
            invariant
                i <= self.names.len(),
                r@ == start + concat_all(self@.subrange(0, i as int)),
            decreases self.names.len() - i,
        {
            r.append(self.names[i].as_str());
            assert(self@.subrange(0, i + 1).drop_last() =~= self@.subrange(0, i as int));
            i = i + 1;
        }
        assert(self@.subrange(0, i as int) =~= self@);
        r
    }

    /// A name for `found_name` (in namespace `ns`, a member of `owner_type` if
    /// given) that was not handed out before; it is now taken.
    pub fn get_unique_cxx_bridge_name(
        &mut self,
        owner_type: Option<&str>,
        found_name: &str,
        ns: &Namespace,
    ) -> (r: String)
        ensures
            r@ == allocated_name(
                old(self)@,
                match owner_type {
                    Some(t) => Some(t@),
                    None => None,
                },
                found_name@,
                ns@,
            ),
            !old(self)@.contains(r@),
            final(self)@ == old(self)@.push(r@),
    {
        let ghost tn = match owner_type {
            Some(t) => Some(t@),
            None => None,
        };
        proof {
            lemma_allocated_is_free(self@, tn, found_name@, ns@);
        }
        let r = if !self.is_taken(found_name) {
            owned(found_name)
        } else {
            let mut segs: Vec<String> = Vec::new();
            let src = ns.iter();
            let mut i: usize = 0;
            while i < src.len()
                invariant
                    i <= src.len(),
                    views_of(src@) == ns@,
                    views_of(segs@) == ns@.subrange(0, i as int),
                decreases src.len() - i,
            {
                let s = src[i].clone();
                proof {
                    lemma_views_push(segs@, s);
                }
                segs.push(s);
                assert(views_of(segs@) =~= ns@.subrange(0, i + 1));
                i = i + 1;
            }
            assert(ns@.subrange(0, i as int) =~= ns@);
            match owner_type {
                Some(t) => {
                    let s = owned(t);
                    proof {
                        lemma_views_push(segs@, s);
                    }
                    segs.push(s);
                },
                None => {},
            }
            let f = owned(found_name);
            proof {
                lemma_views_push(segs@, f);
            }
            segs.push(f);
            let prefix = join(&segs, "_");
            assert(views_of(segs@) =~= (match tn {
                Some(t) => ns@.push(t),
                None => ns@,
            }).push(found_name@));
            assert(prefix@ == qualified_prefix(ns@, tn, found_name@));
            if !self.is_taken(prefix.as_str()) {
                prefix
            } else {
                assert(self@.len() == self.names.len());
                let fuel = self.names.len();
                let mut k: usize = 0;
                let mut chosen: Option<String> = None;
                while k < fuel
                    invariant_except_break
                        chosen is None,
                    invariant
                        k <= fuel,
                        fuel == self@.len(),
                        first_free(self@, prefix@, 1, fuel as nat) == first_free(
                            self@,
                            prefix@,
                            (k + 1) as nat,
                            (fuel - k) as nat,
                        ),
                    ensures
                        chosen matches Some(c) ==> c@ == first_free(self@, prefix@, 1, fuel as nat),
                        chosen is None ==> k == fuel,
                    decreases fuel - k,
                {
                    let mut candidate = owned(prefix.as_str());
                    candidate.append("_autocxx");
                    let d = decimal_string(k + 1);
                    candidate.append(d.as_str());
                    assert(candidate@ == numbered(prefix@, (k + 1) as nat));
                    if !self.is_taken(candidate.as_str()) {
                        chosen = Some(candidate);
                        break;
                    }
                    k = k + 1;
                }
                match chosen {
                    Some(c) => c,
                    None => self.pad(prefix.as_str()),
                }
            }
        };
        assert(r@ == allocated_name(self@, tn, found_name@, ns@));
        let c = r.clone();
        proof {
            lemma_views_push(self.names@, c);
        }
        self.names.push(c);
        r
    }
}

} // verus!
