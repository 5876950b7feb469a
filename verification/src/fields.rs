use vstd::prelude::*;
use crate::value::{Value, ValueModel, model_pairs, value_model, lemma_model_pairs_index};

verus! {

/// The fields of a document: a mapping from names to values whose keys are
/// pairwise distinct. Insertion order is kept, so an encoding of the fields
/// reproduces them exactly.
#[derive(Debug, PartialEq)]
pub struct Fields {
    pairs: Vec<(String, Value)>,
}

/// First-match lookup in a sequence of modelled name/value pairs.
pub open spec fn spec_lookup(s: Seq<(Seq<char>, ValueModel)>, name: Seq<char>) -> Option<ValueModel>
    decreases s.len(),
{
    if s.len() == 0 {
        None
    } else if s[0].0 == name {
        Some(s[0].1)
    } else {
        spec_lookup(s.subrange(1, s.len() as int), name)
    }
}

/// Keys are pairwise distinct.
pub open spec fn keys_unique(s: Seq<(Seq<char>, ValueModel)>) -> bool {
    forall|i: int, j: int| 0 <= i < j < s.len() ==> s[i].0 != s[j].0
}

/// A name that matches no key is not found.
pub proof fn lemma_lookup_none(s: Seq<(Seq<char>, ValueModel)>, name: Seq<char>)
    requires
        forall|j: int| 0 <= j < s.len() ==> s[j].0 != name,
    ensures
        spec_lookup(s, name) is None,
    decreases s.len(),
{
    if s.len() > 0 {
        let rest = s.subrange(1, s.len() as int);
        assert(forall|j: int| 0 <= j < rest.len() ==> rest[j] == s[j + 1]);
        lemma_lookup_none(rest, name);
    }
}

/// A name that is not found matches no key.
pub proof fn lemma_lookup_not_found(s: Seq<(Seq<char>, ValueModel)>, name: Seq<char>)
    requires
        spec_lookup(s, name) is None,
    ensures
        forall|j: int| 0 <= j < s.len() ==> s[j].0 != name,
    decreases s.len(),
{
    if s.len() > 0 {
        let rest = s.subrange(1, s.len() as int);
        lemma_lookup_not_found(rest, name);
        assert forall|j: int| 0 <= j < s.len() implies s[j].0 != name by {
            if j > 0 {
                assert(rest[j - 1] == s[j]);
            }
        }
    }
}

/// Lookup yields the first matching pair.
pub proof fn lemma_lookup_first_match(s: Seq<(Seq<char>, ValueModel)>, name: Seq<char>, i: int)
    requires
        0 <= i < s.len(),
        s[i].0 == name,
        forall|j: int| 0 <= j < i ==> s[j].0 != name,
    ensures
        spec_lookup(s, name) == Some(s[i].1),
    decreases i,
{
    if i > 0 {
        let rest = s.subrange(1, s.len() as int);
        assert(rest[i - 1] == s[i]);
        assert(forall|j: int| 0 <= j < i - 1 ==> rest[j] == s[j + 1]);
        lemma_lookup_first_match(rest, name, i - 1);
    }
}

/// Relies on str's `==` (its PartialEq): true exactly when the two strings
/// hold the same characters.
#[verifier::external_body]
fn str_eq(a: &str, b: &str) -> (r: bool)
    ensures
        r == (a@ == b@),
{
    a == b
}

impl View for Fields {
    type V = Seq<(Seq<char>, ValueModel)>;

    closed spec fn view(&self) -> Seq<(Seq<char>, ValueModel)> {
        model_pairs(self.pairs@)
    }
}

impl Fields {
    /// Keys are pairwise distinct; every constructor establishes this and
    /// every method preserves it.
    pub open spec fn wf(&self) -> bool {
        keys_unique(self@)
    }

    pub fn new() -> (r: Fields)
        ensures
            r@ == Seq::<(Seq<char>, ValueModel)>::empty(),
            r.wf(),
    {
        let r = Fields { pairs: Vec::new() };
        proof {
            assert(r@ =~= Seq::<(Seq<char>, ValueModel)>::empty());
        }
        r
    }

    pub fn len(&self) -> (r: usize)
        ensures
            r == self@.len(),
    {
        proof {
            lemma_model_pairs_index(self.pairs@);
        }
        self.pairs.len()
    }

    /// The underlying name/value pairs, in insertion order.
    pub fn raw_pairs(&self) -> (r: &Vec<(String, Value)>)
        ensures
            model_pairs(r@) == self@,
    {
        &self.pairs
    }

    /// Looks a field up by name: the first pair with that name, and with
    /// distinct keys the only one.
    pub fn get(&self, name: &str) -> (r: Option<&Value>)
        ensures
            match spec_lookup(self@, name@) {
                Some(m) => r is Some && (r->0)@ == m,
                None => r is None,
            },
    {
        proof {
            lemma_model_pairs_index(self.pairs@);
        }
        let ghost m = self@;
        let mut i: usize = 0;
        while i < self.pairs.len()
            invariant
                i <= self.pairs.len(),
                m == model_pairs(self.pairs@),
                m.len() == self.pairs@.len(),
                forall|k: int| 0 <= k < m.len() ==> #[trigger] m[k] == (self.pairs@[k].0@, value_model(self.pairs@[k].1)),
                forall|j: int| 0 <= j < i ==> m[j].0 != name@,
            decreases self.pairs@.len() - i,
        {
            if str_eq(self.pairs[i].0.as_str(), name) {
                proof {
                    lemma_lookup_first_match(m, name@, i as int);
                }
                return Some(&self.pairs[i].1);
            }
            i = i + 1;
        }
        proof {
            lemma_lookup_none(m, name@);
        }
        None
    }

    /// Appends a field that is not yet present; distinct keys are preserved.
    pub fn push_field(&mut self, name: String, value: Value)
        requires
            spec_lookup(old(self)@, name@) is None,
        ensures
            final(self)@ == old(self)@.push((name@, value@)),
            old(self).wf() ==> final(self).wf(),
    {
        let ghost old_pairs = self.pairs@;
        let ghost nm = name@;
        let ghost vm = value@;
        self.pairs.push((name, value));
        proof {
            lemma_model_pairs_index(old_pairs);
            lemma_model_pairs_index(self.pairs@);
            assert(self@ =~= old(self)@.push((nm, vm)));
            if old(self).wf() {
                lemma_lookup_not_found(old(self)@, nm);
            }
        }
    }

    /// Builds a field mapping from name/value pairs, keeping their order;
    /// a duplicated name is rejected.
    pub fn from_pairs(pairs: Vec<(String, Value)>) -> (r: Option<Fields>)
        ensures
            r is Some <==> keys_unique(model_pairs(pairs@)),
            r is Some ==> (r->0)@ == model_pairs(pairs@) && (r->0).wf(),
    {
        let ghost orig = model_pairs(pairs@);
        proof {
            lemma_model_pairs_index(pairs@);
        }
        let mut i: usize = 1;
        while i < pairs.len()
            invariant
                1 <= i,
                i <= pairs.len() || pairs.len() == 0,
                orig == model_pairs(pairs@),
                orig.len() == pairs@.len(),
                forall|k: int| 0 <= k < orig.len() ==> #[trigger] orig[k] == (pairs@[k].0@, value_model(pairs@[k].1)),
                forall|a: int, b: int| 0 <= a < b < i && b < orig.len() ==> orig[a].0 != orig[b].0,
            decreases pairs@.len() - i,
        {
            let mut j: usize = 0;
            while j < i
                invariant
                    j <= i,
                    i < pairs.len(),
                    orig == model_pairs(pairs@),
                    orig.len() == pairs@.len(),
                    forall|k: int| 0 <= k < orig.len() ==> #[trigger] orig[k] == (pairs@[k].0@, value_model(pairs@[k].1)),
                    forall|a: int| 0 <= a < j ==> orig[a].0 != orig[i as int].0,
                decreases i - j,
            {
                if str_eq(pairs[j].0.as_str(), pairs[i].0.as_str()) {
                    proof {
                        assert(orig[j as int].0 == orig[i as int].0);
                        assert(!keys_unique(orig));
                    }
                    return None;
                }
                j = j + 1;
            }
            i = i + 1;
        }
        proof {
            assert(keys_unique(orig));
        }
        let r = Fields { pairs };
        proof {
            assert(r@ == orig);
        }
        Some(r)
    }
}

} // verus!
