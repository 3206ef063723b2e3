//! Feature-set normalizer.
//!
//! Folds a baseline feature list and the ordered add/remove directive
//! stream parsed from the build flags into the definitive set of enabled
//! hardware features. The last directive for a given name wins; removing
//! an absent name is a no-op; the normalizer cannot fail, and a missing
//! baseline yields the empty set.

use vstd::prelude::*;
use vstd::string::StrSliceExecFns;

use crate::flags::{strip_plus, strip_plus_spec, Directive, DirectiveV};
use crate::util::str_eq;

verus! {

/// The set of character sequences named by a list of strings.
pub open spec fn names_as_set(names: Seq<String>) -> Set<Seq<char>> {
    names.map_values(|s: String| s@).to_set()
}

/// The definitive name-to-presence mapping of enabled hardware features,
/// with set semantics: its mathematical value is the set of enabled names.
#[derive(Debug)]
pub struct FeatureSet {
    names: Vec<String>,
}

impl View for FeatureSet {
    type V = Set<Seq<char>>;

    closed spec fn view(&self) -> Set<Seq<char>> {
        names_as_set(self.names@)
    }
}

/// One directive applied to a feature set: an addition inserts the name
/// with its enable markers stripped; a removal deletes the name if present
/// and otherwise changes nothing.
pub open spec fn directive_applied(s: Set<Seq<char>>, d: DirectiveV) -> Set<Seq<char>> {
    match d {
        DirectiveV::Add(name) => s.insert(strip_plus_spec(name)),
        DirectiveV::Remove(name) => s.remove(name),
    }
}

/// An ordered directive stream applied to a feature set, first to last.
pub open spec fn directives_applied(s: Set<Seq<char>>, ds: Seq<DirectiveV>) -> Set<Seq<char>>
    decreases ds.len(),
{
    if ds.len() == 0 {
        s
    } else {
        directive_applied(directives_applied(s, ds.drop_last()), ds.last())
    }
}

/// The last decision a directive stream makes about one name: `Some(true)`
/// when the last directive for the name enables it, `Some(false)` when it
/// disables it, `None` when no directive speaks of it.
pub open spec fn last_decision(ds: Seq<DirectiveV>, n: Seq<char>) -> Option<bool>
    decreases ds.len(),
{
    if ds.len() == 0 {
        None
    } else {
        match ds.last() {
            DirectiveV::Add(name) => if strip_plus_spec(name) == n {
                Some(true)
            } else {
                last_decision(ds.drop_last(), n)
            },
            DirectiveV::Remove(name) => if name == n {
                Some(false)
            } else {
                last_decision(ds.drop_last(), n)
            },
        }
    }
}

/// Membership after a directive stream: the stream's last directive for a
/// name decides it; a name the stream never mentions keeps its baseline
/// membership.
pub proof fn lemma_directive_membership(s: Set<Seq<char>>, ds: Seq<DirectiveV>, n: Seq<char>)
    ensures
        directives_applied(s, ds).contains(n) == match last_decision(ds, n) {
            Some(b) => b,
            None => s.contains(n),
        },
    decreases ds.len(),
{
    if ds.len() > 0 {
        lemma_directive_membership(s, ds.drop_last(), n);
    }
}

/// Law: applying one directive stream twice to the same baseline yields
/// the same feature set as applying it once.
pub proof fn lemma_directives_idempotent(s: Set<Seq<char>>, ds: Seq<DirectiveV>)
    ensures
        directives_applied(directives_applied(s, ds), ds) == directives_applied(s, ds),
{
    let once = directives_applied(s, ds);
    let twice = directives_applied(once, ds);
    assert forall|n: Seq<char>| twice.contains(n) == once.contains(n) by {
        lemma_directive_membership(s, ds, n);
        lemma_directive_membership(once, ds, n);
    }
    assert(twice =~= once);
}

proof fn lemma_push_view(names: Seq<String>, name: String)
    ensures
        names_as_set(names.push(name)) == names_as_set(names).insert(name@),
{
    let f = |s: String| s@;
    let m0 = names.map_values(f);
    let m1 = names.push(name).map_values(f);
    assert(m1 =~= m0.push(name@));
    assert forall|x: Seq<char>|
        names_as_set(names.push(name)).contains(x)
            == names_as_set(names).insert(name@).contains(x) by {
        if m1.contains(x) {
            let k = choose|k: int| 0 <= k < m1.len() && m1[k] == x;
            if k < m0.len() {
                assert(m0.contains(x));
            }
        }
        if m0.contains(x) {
            let k = choose|k: int| 0 <= k < m0.len() && m0[k] == x;
            assert(m1[k] == x);
        }
        if x == name@ {
            assert(m1[m0.len() as int] == x);
        }
    }
    assert(names_as_set(names.push(name)) =~= names_as_set(names).insert(name@));
}

proof fn lemma_remove_view(names: Seq<String>, idx: int)
    requires
        names.map_values(|s: String| s@).no_duplicates(),
        0 <= idx < names.len(),
    ensures
        names_as_set(names.remove(idx)) == names_as_set(names).remove(names[idx]@),
        names.remove(idx).map_values(|s: String| s@).no_duplicates(),
{
    let f = |s: String| s@;
    let x = names[idx]@;
    let m0 = names.map_values(f);
    let m1 = names.remove(idx).map_values(f);
    assert(m1 =~= m0.remove(idx));
    assert forall|y: Seq<char>|
        names_as_set(names.remove(idx)).contains(y)
            == names_as_set(names).remove(x).contains(y) by {
        if m1.contains(y) {
            let k = choose|k: int| 0 <= k < m1.len() && m1[k] == y;
            if k < idx {
                assert(m0[k] == y);
                assert(m0.contains(y));
                assert(m0[idx] == x);
                assert(y != x);
            } else {
                assert(m0[k + 1] == y);
                assert(m0.contains(y));
                assert(m0[idx] == x);
                assert(y != x);
            }
        }
        if m0.contains(y) && y != x {
            let k = choose|k: int| 0 <= k < m0.len() && m0[k] == y;
            if k < idx {
                assert(m1[k] == y);
                assert(m1.contains(y));
            } else if k > idx {
                assert(m1[k - 1] == y);
                assert(m1.contains(y));
            }
        }
    }
    assert(names_as_set(names.remove(idx)) =~= names_as_set(names).remove(x));
}

impl FeatureSet {
    /// The stored names are pairwise distinct, so that one deletion removes
    /// a name entirely.
    pub closed spec fn wf(&self) -> bool {
        self.names@.map_values(|s: String| s@).no_duplicates()
    }

    /// The empty feature set.
    pub fn new() -> (r: FeatureSet)
        ensures
            r.wf(),
            r@ == Set::<Seq<char>>::empty(),
    {
        let r = FeatureSet { names: Vec::new() };
        proof {
            assert(r@ =~= Set::<Seq<char>>::empty());
        }
        r
    }

    /// The index holding a name, if the name is present.
    fn index_of(&self, name: &str) -> (r: Option<usize>)
        ensures
            match r {
                Some(i) => i < self.names@.len() && self.names@[i as int]@ == name@,
                None => forall|j: int| 0 <= j < self.names@.len() ==> self.names@[j]@ != name@,
            },
    {
        let n = self.names.len();
        let mut i: usize = 0;
        while i < n
            invariant
                n == self.names@.len(),
                i <= n,
                forall|j: int| 0 <= j < i ==> self.names@[j]@ != name@,
            decreases n - i,
        {
            if str_eq(self.names[i].as_str(), name) {
                return Some(i);
            }
            i = i + 1;
        }
        None
    }

    /// Whether a feature name is enabled.
    pub fn contains(&self, name: &str) -> (r: bool)
        ensures
            r == self@.contains(name@),
    {
        let found = self.index_of(name);
        proof {
            let f = |s: String| s@;
            let m = self.names@.map_values(f);
            if let Some(i) = found {
                assert(m[i as int] == name@);
                assert(m.contains(name@));
            } else {
                if m.contains(name@) {
                    let k = choose|k: int| 0 <= k < m.len() && m[k] == name@;
                    assert(self.names@[k]@ == name@);
                }
            }
        }
        found.is_some()
    }

    /// The number of enabled features.
    pub fn count(&self) -> (n: usize)
        requires
            self.wf(),
        ensures
            n == self@.len(),
    {
        proof {
            self.names@.map_values(|s: String| s@).unique_seq_to_set();
        }
        self.names.len()
    }

    /// Enables a name: inserts it if it is absent, and otherwise changes
    /// nothing.
    pub fn insert(&mut self, name: String)
        requires
            old(self).wf(),
        ensures
            final(self).wf(),
            final(self)@ == old(self)@.insert(name@),
    {
        let found = self.index_of(name.as_str());
        match found {
            Some(i) => {
                proof {
                    let m = self.names@.map_values(|s: String| s@);
                    assert(m[i as int] == name@);
                    assert(m.contains(name@));
                    assert(self@.insert(name@) =~= self@);
                }
            },
            None => {
                proof {
                    lemma_push_view(self.names@, name);
                    let m1 = self.names@.push(name).map_values(|s: String| s@);
                    let m0 = self.names@.map_values(|s: String| s@);
                    assert(m1 =~= m0.push(name@));
                }
                self.names.push(name);
            },
        }
    }

    /// Disables a name: deletes it if present, else a no-op.
    pub fn remove(&mut self, name: &str)
        requires
            old(self).wf(),
        ensures
            final(self).wf(),
            final(self)@ == old(self)@.remove(name@),
    {
        let found = self.index_of(name);
        match found {
            Some(i) => {
                proof {
                    lemma_remove_view(self.names@, i as int);
                }
                self.names.remove(i);
            },
            None => {
                proof {
                    let m = self.names@.map_values(|s: String| s@);
                    if m.contains(name@) {
                        let k = choose|k: int| 0 <= k < m.len() && m[k] == name@;
                        assert(self.names@[k]@ == name@);
                    }
                    assert(self@.remove(name@) =~= self@);
                }
            },
        }
    }

    /// A feature set holding exactly the names of a baseline list.
    pub fn from_baseline(baseline: &Vec<String>) -> (r: FeatureSet)
        ensures
            r.wf(),
            r@ == names_as_set(baseline@),
    {
        let mut r = FeatureSet::new();
        let n = baseline.len();
        let mut i: usize = 0;
        while i < n
            invariant
                n == baseline@.len(),
                i <= n,
                r.wf(),
                r@ == names_as_set(baseline@.subrange(0, i as int)),
            decreases n - i,
        {
            let ghost prefix = baseline@.subrange(0, i as int);
            r.insert(baseline[i].clone());
            proof {
                assert(baseline@.subrange(0, i + 1) =~= prefix.push(baseline@[i as int]));
                lemma_push_view(prefix, baseline@[i as int]);
            }
            i = i + 1;
        }
        proof {
            assert(baseline@.subrange(0, n as int) =~= baseline@);
        }
        r
    }

    /// Applies one directive.
    pub fn apply(&mut self, d: &Directive)
        requires
            old(self).wf(),
        ensures
            final(self).wf(),
            final(self)@ == directive_applied(old(self)@, d@),
    {
        match d {
            Directive::Add(name) => {
                let stripped = strip_plus(name.as_str());
                self.insert(stripped);
            },
            Directive::Remove(name) => {
                self.remove(name.as_str());
            },
        }
    }

    /// Applies an ordered directive stream, first to last.
    pub fn apply_all(&mut self, ds: &Vec<Directive>)
        requires
            old(self).wf(),
        ensures
            final(self).wf(),
            final(self)@ == directives_applied(old(self)@, ds@.map_values(|d: Directive| d@)),
    {
        let ghost s0 = self@;
        let ghost dvs = ds@.map_values(|d: Directive| d@);
        let n = ds.len();
        let mut i: usize = 0;
        while i < n
            invariant
                n == ds@.len(),
                dvs == ds@.map_values(|d: Directive| d@),
                i <= n,
                self.wf(),
                self@ == directives_applied(s0, dvs.subrange(0, i as int)),
            decreases n - i,
        {
            self.apply(&ds[i]);
            proof {
                let pre = dvs.subrange(0, i as int);
                let pre1 = dvs.subrange(0, i + 1);
                assert(pre1.drop_last() =~= pre);
                assert(pre1.last() == dvs[i as int]);
            }
            i = i + 1;
        }
        proof {
            assert(dvs.subrange(0, n as int) =~= dvs);
        }
    }
}

/// The comma-separated tokens of a raw baseline value: `cur` is the token
/// read so far, and every comma ends one token and starts the next.
pub open spec fn split_tokens(s: Seq<char>, cur: Seq<char>) -> Seq<Seq<char>>
    decreases s.len(),
{
    if s.len() == 0 {
        seq![cur]
    } else if s[0] == ',' {
        seq![cur] + split_tokens(s.drop_first(), Seq::empty())
    } else {
        split_tokens(s.drop_first(), cur.push(s[0]))
    }
}

/// The tokens of `split_tokens`, empty ones dropped.
pub open spec fn tokens_filtered(s: Seq<char>, cur: Seq<char>) -> Seq<Seq<char>> {
    split_tokens(s, cur).filter(|t: Seq<char>| t.len() > 0)
}

/// The feature names of a raw baseline value: its comma-separated tokens,
/// empty entries dropped.
pub open spec fn baseline_names(raw: Seq<char>) -> Seq<Seq<char>> {
    tokens_filtered(raw, Seq::empty())
}

proof fn lemma_tokens_filtered_comma(s: Seq<char>, cur: Seq<char>)
    requires
        s.len() > 0,
        s[0] == ',',
    ensures
        cur.len() > 0 ==> tokens_filtered(s, cur) == seq![cur] + tokens_filtered(
            s.drop_first(),
            Seq::empty(),
        ),
        cur.len() == 0 ==> tokens_filtered(s, cur) == tokens_filtered(s.drop_first(), Seq::empty()),
{
    broadcast use vstd::seq_lib::group_seq_lib_default;

    let p = |t: Seq<char>| t.len() > 0;
    let rest = split_tokens(s.drop_first(), Seq::empty());
    assert(split_tokens(s, cur) == seq![cur] + rest);
    assert((seq![cur] + rest).filter(p) == seq![cur].filter(p) + rest.filter(p));
    reveal_with_fuel(Seq::<_>::filter, 2);
    assert(seq![cur].drop_last() =~= Seq::<Seq<char>>::empty());
    if cur.len() > 0 {
        assert(seq![cur].filter(p) =~= seq![cur]);
    } else {
        assert(seq![cur].filter(p) =~= Seq::<Seq<char>>::empty());
    }
}

proof fn lemma_tokens_filtered_end(cur: Seq<char>)
    ensures
        cur.len() > 0 ==> tokens_filtered(Seq::<char>::empty(), cur) == seq![cur],
        cur.len() == 0 ==> tokens_filtered(Seq::<char>::empty(), cur) == Seq::<Seq<char>>::empty(),
{
    let p = |t: Seq<char>| t.len() > 0;
    assert(split_tokens(Seq::<char>::empty(), cur) == seq![cur]);
    reveal_with_fuel(Seq::<_>::filter, 2);
    assert(seq![cur].drop_last() =~= Seq::<Seq<char>>::empty());
    if cur.len() > 0 {
        assert(seq![cur].filter(p) =~= seq![cur]);
    } else {
        assert(seq![cur].filter(p) =~= Seq::<Seq<char>>::empty());
    }
}

/// Splits a raw baseline value at commas, dropping empty entries.
pub fn split_baseline(raw: &str) -> (r: Vec<String>)
    ensures
        r@.map_values(|s: String| s@) == baseline_names(raw@),
{
    let len = raw.unicode_len();
    let mut r: Vec<String> = Vec::new();
    let mut start: usize = 0;
    let mut i: usize = 0;
    proof {
        assert(raw@.subrange(0, len as int) =~= raw@);
        assert(raw@.subrange(0, 0) =~= Seq::<char>::empty());
        assert(r@.map_values(|s: String| s@) =~= Seq::<Seq<char>>::empty());
        broadcast use vstd::seq_lib::group_seq_lib_default;

    }
    while i < len
        invariant
            len == raw@.len(),
            start <= i <= len,
            baseline_names(raw@) == r@.map_values(|s: String| s@) + tokens_filtered(
                raw@.subrange(i as int, len as int),
                raw@.subrange(start as int, i as int),
            ),
        decreases len - i,
    {
        let ghost rem = raw@.subrange(i as int, len as int);
        let ghost tok = raw@.subrange(start as int, i as int);
        proof {
            assert(rem[0] == raw@[i as int]);
            assert(rem.drop_first() =~= raw@.subrange(i + 1, len as int));
        }
        let c = raw.get_char(i);
        if c == ',' {
            proof {
                lemma_tokens_filtered_comma(rem, tok);
            }
            if start < i {
                let t = raw.substring_char(start, i);
                let ghost old_r = r@;
                r.push(String::from_str(t));
                proof {
                    broadcast use vstd::seq_lib::group_seq_lib_default;

                    assert(r@.map_values(|s: String| s@) =~= old_r.map_values(|s: String| s@)
                        + seq![tok]);
                }
            }
            start = i + 1;
            proof {
                assert(raw@.subrange(start as int, i + 1) =~= Seq::<char>::empty());
            }
        } else {
            proof {
                assert(tok.push(raw@[i as int]) =~= raw@.subrange(start as int, i + 1));
            }
        }
        i = i + 1;
    }
    let ghost tok = raw@.subrange(start as int, len as int);
    proof {
        assert(raw@.subrange(len as int, len as int) =~= Seq::<char>::empty());
        lemma_tokens_filtered_end(tok);
    }
    if start < len {
        let t = raw.substring_char(start, len);
        let ghost old_r = r@;
        r.push(String::from_str(t));
        proof {
            broadcast use vstd::seq_lib::group_seq_lib_default;

            assert(r@.map_values(|s: String| s@) =~= old_r.map_values(|s: String| s@)
                + seq![tok]);
            assert(old_r.map_values(|s: String| s@) + seq![tok] =~= baseline_names(raw@));
        }
    } else {
        proof {
            broadcast use vstd::seq_lib::group_seq_lib_default;

            assert(r@.map_values(|s: String| s@) + Seq::<Seq<char>>::empty() =~= r@.map_values(
                |s: String| s@,
            ));
        }
    }
    r
}

} // verus!
