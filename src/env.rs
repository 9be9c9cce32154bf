//! The environment a scenario hands to the executor: a map from variable
//! names to values, kept as pairs with distinct names.
use vstd::prelude::*;

verus! {

/// What `str::to_uppercase` makes of `s`.
pub uninterp spec fn upper_of(s: Seq<char>) -> Seq<char>;

/// Relies on `str::to_uppercase`: the result depends on the characters alone.
#[verifier::external_body]
fn uppercase(s: &str) -> (r: String)
    ensures
        r@ == upper_of(s@),
{
    s.to_uppercase()
}

/// The map that a list of pairs gives when each pair is inserted in turn,
/// a later pair overriding an earlier one with the same name.
pub open spec fn map_of(pairs: Seq<(Seq<char>, Seq<char>)>) -> Map<Seq<char>, Seq<char>>
    decreases pairs.len(),
{
    if pairs.len() == 0 {
        Map::empty()
    } else {
        map_of(pairs.drop_last()).insert(pairs.last().0, pairs.last().1)
    }
}

/// The name of a captured variable, upper-cased where names are
/// case-insensitive.
pub open spec fn normal_key(key: Seq<char>, case_insensitive: bool) -> Seq<char> {
    if case_insensitive {
        upper_of(key)
    } else {
        key
    }
}

/// The pairs of a captured environment with their names normalised.
pub open spec fn normalised(pairs: Seq<(String, String)>, case_insensitive: bool) -> Seq<(Seq<char>, Seq<char>)> {
    pairs.map_values(|p: (String, String)| (normal_key(p.0@, case_insensitive), p.1@))
}

/// The views of a list of string pairs.
pub open spec fn pair_views(pairs: Seq<(String, String)>) -> Seq<(Seq<char>, Seq<char>)> {
    pairs.map_values(|p: (String, String)| (p.0@, p.1@))
}

/// Variable names and values, each name once.
pub struct EnvVars {
    pub pairs: Vec<(String, String)>,
}

impl View for EnvVars {
    type V = Map<Seq<char>, Seq<char>>;

    open spec fn view(&self) -> Map<Seq<char>, Seq<char>> {
        map_of(pair_views(self.pairs@))
    }
}

proof fn lemma_map_of_dom(pairs: Seq<(Seq<char>, Seq<char>)>, k: Seq<char>)
    ensures
        map_of(pairs).contains_key(k) <==> exists|i: int| 0 <= i < pairs.len() && pairs[i].0 == k,
    decreases pairs.len(),
{
    if pairs.len() > 0 {
        lemma_map_of_dom(pairs.drop_last(), k);
        if map_of(pairs).contains_key(k) && pairs.last().0 != k {
            let i = choose|i: int| 0 <= i < pairs.len() - 1 && pairs.drop_last()[i].0 == k;
            assert(pairs[i].0 == k);
        }
        if exists|i: int| 0 <= i < pairs.len() && pairs[i].0 == k {
            let i = choose|i: int| 0 <= i < pairs.len() && pairs[i].0 == k;
            if i < pairs.len() - 1 {
                assert(pairs.drop_last()[i].0 == k);
            }
        }
    }
}

proof fn lemma_map_of_update(pairs: Seq<(Seq<char>, Seq<char>)>, i: int, v: Seq<char>)
    requires
        0 <= i < pairs.len(),
        forall|a: int, b: int| 0 <= a < b < pairs.len() ==> pairs[a].0 != pairs[b].0,
    ensures
        map_of(pairs.update(i, (pairs[i].0, v))) == map_of(pairs).insert(pairs[i].0, v),
    decreases pairs.len(),
{
    let upd = pairs.update(i, (pairs[i].0, v));
    if i == pairs.len() - 1 {
        assert(upd.drop_last() =~= pairs.drop_last());
        assert(map_of(upd) =~= map_of(pairs).insert(pairs[i].0, v));
    } else {
        assert(upd.drop_last() =~= pairs.drop_last().update(i, (pairs[i].0, v)));
        lemma_map_of_update(pairs.drop_last(), i, v);
        assert(pairs.last().0 != pairs[i].0);
        assert(map_of(upd) =~= map_of(pairs).insert(pairs[i].0, v));
    }
}

impl EnvVars {
    /// Names are distinct.
    pub open spec fn wf(&self) -> bool {
        forall|a: int, b: int|
            0 <= a < b < self.pairs@.len() ==> self.pairs@[a].0@ != self.pairs@[b].0@
    }

    /// An empty environment.
    pub fn new() -> (r: EnvVars)
        ensures
            r.wf(),
            r@ == Map::<Seq<char>, Seq<char>>::empty(),
    {
        EnvVars { pairs: Vec::new() }
    }

    /// Sets `name` to `value`, replacing any earlier value of `name`.
    pub fn insert(&mut self, name: String, value: String)
        requires
            old(self).wf(),
        ensures
            final(self).wf(),
            final(self)@ == old(self)@.insert(name@, value@),
    {
        let ghost pv = pair_views(self.pairs@);
        let mut i: usize = 0;
        while i < self.pairs.len()
            invariant
                i <= self.pairs@.len(),
                self.pairs@ == old(self).pairs@,
                pv == pair_views(self.pairs@),
                self.wf(),
                forall|j: int| 0 <= j < i ==> self.pairs@[j].0@ != name@,
            decreases self.pairs@.len() - i,
        {
            if self.pairs[i].0 == name {
                proof {
                    assert forall|a: int, b: int| 0 <= a < b < pv.len() implies pv[a].0 != pv[b].0 by {
                        assert(pv[a].0 == self.pairs@[a].0@);
                        assert(pv[b].0 == self.pairs@[b].0@);
                    }
                    lemma_map_of_update(pv, i as int, value@);
                }
                let ghost before = self.pairs@;
                let key = self.pairs[i].0.clone();
                self.pairs.set(i, (key, value));
                assert(forall|j: int| 0 <= j < before.len() ==> self.pairs@[j].0@ == before[j].0@);
                assert(pair_views(self.pairs@) =~= pv.update(i as int, (pv[i as int].0, value@)));
                return;
            }
            i = i + 1;
        }
        proof {
            assert forall|j: int| 0 <= j < pv.len() implies pv[j].0 != name@ by {
                assert(pv[j].0 == self.pairs@[j].0@);
            }
            lemma_map_of_dom(pv, name@);
        }
        self.pairs.push((name, value));
        assert(pair_views(self.pairs@).drop_last() =~= pv);
    }

    /// The environment that captured pairs give, each name normalised, a
    /// later pair overriding an earlier one with the same normalised name.
    pub fn capture(vars: &Vec<(String, String)>, case_insensitive: bool) -> (r: EnvVars)
        ensures
            r.wf(),
            r@ == map_of(normalised(vars@, case_insensitive)),
    {
        let ghost norm = normalised(vars@, case_insensitive);
        let mut env = EnvVars::new();
        let mut i: usize = 0;
        while i < vars.len()
            invariant
                i <= vars@.len(),
                env.wf(),
                env@ == map_of(norm.subrange(0, i as int)),
                norm == normalised(vars@, case_insensitive),
            decreases vars@.len() - i,
        {
            let key = if case_insensitive {
                uppercase(vars[i].0.as_str())
            } else {
                vars[i].0.clone()
            };
            env.insert(key, vars[i].1.clone());
            assert(norm.subrange(0, i + 1).drop_last() =~= norm.subrange(0, i as int));
            i = i + 1;
        }
        assert(norm.subrange(0, vars@.len() as int) =~= norm);
        env
    }

    /// The pairs, for handing to the executor.
    pub fn to_pairs(&self) -> (r: Vec<(String, String)>)
        ensures
            pair_views(r@) == pair_views(self.pairs@),
    {
        let mut out: Vec<(String, String)> = Vec::new();
        let mut i: usize = 0;
        while i < self.pairs.len()
            invariant
                i <= self.pairs@.len(),
                out@.len() == i,
                forall|j: int|
                    0 <= j < i ==> out@[j].0@ == self.pairs@[j].0@ && out@[j].1@ == self.pairs@[j].1@,
            decreases self.pairs@.len() - i,
        {
            let k = self.pairs[i].0.clone();
            let v = self.pairs[i].1.clone();
            out.push((k, v));
            i = i + 1;
        }
        assert(pair_views(out@) =~= pair_views(self.pairs@));
        out
    }
}

} // verus!
