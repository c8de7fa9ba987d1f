use vstd::prelude::*;
use crate::strutil::{has_kv_sep, kv_key, kv_val, parse_key_value, str_eq};

verus! {

/// The mathematical map described by a sequence of key/value pairs, where a
/// later pair overrides an earlier one with the same key.
pub open spec fn map_of(pairs: Seq<(String, String)>) -> Map<Seq<char>, Seq<char>>
    decreases pairs.len(),
{
    if pairs.len() == 0 {
        Map::empty()
    } else {
        map_of(pairs.drop_last()).insert(pairs.last().0@, pairs.last().1@)
    }
}

pub proof fn lemma_map_of_concat(a: Seq<(String, String)>, b: Seq<(String, String)>)
    ensures
        map_of(a + b) == map_of(a).union_prefer_right(map_of(b)),
    decreases b.len(),
{
    if b.len() == 0 {
        assert(a + b =~= a);
        assert(map_of(a).union_prefer_right(map_of(b)) =~= map_of(a));
    } else {
        lemma_map_of_concat(a, b.drop_last());
        assert((a + b).drop_last() =~= a + b.drop_last());
        assert(map_of(a + b) =~= map_of(a).union_prefer_right(map_of(b)));
    }
}

/// The environment handed to a child process: a name-to-value mapping
/// composed by explicit, ordered merging.
#[derive(Debug)]
pub struct EnvMap {
    pairs: Vec<(String, String)>,
}

impl View for EnvMap {
    type V = Map<Seq<char>, Seq<char>>;

    closed spec fn view(&self) -> Map<Seq<char>, Seq<char>> {
        map_of(self.pairs@)
    }
}

impl EnvMap {
    pub fn new() -> (r: Self)
        ensures
            r@ == Map::<Seq<char>, Seq<char>>::empty(),
    {
        EnvMap { pairs: Vec::new() }
    }

    /// Binds `key` to `value`, overriding any earlier binding of `key`.
    pub fn insert(&mut self, key: String, value: String)
        ensures
            final(self)@ == old(self)@.insert(key@, value@),
    {
        let ghost old_pairs = self.pairs@;
        self.pairs.push((key, value));
        proof {
            assert(self.pairs@.drop_last() =~= old_pairs);
        }
    }

    /// Looks `key` up; the latest binding wins.
    pub fn get(&self, key: &str) -> (r: Option<&String>)
        ensures
            r is Some <==> self@.contains_key(key@),
            r is Some ==> r->0@ == self@[key@],
    {
        let mut i = self.pairs.len();
        while i > 0
            invariant
                i <= self.pairs.len(),
                forall|k: int| i <= k < self.pairs@.len() ==> self.pairs@[k].0@ != key@,
            decreases i,
        {
            i = i - 1;
            if str_eq(self.pairs[i].0.as_str(), key) {
                proof {
                    lemma_map_of_last_match(self.pairs@, i as int, key@);
                }
                return Some(&self.pairs[i].1);
            }
        }
        proof {
            lemma_map_of_no_match(self.pairs@, key@);
        }
        None
    }

    /// A map holding every binding of `base` and every binding of `self`;
    /// on a shared key, the binding of `self` wins.
    pub fn merged_over(&self, base: &EnvMap) -> (r: EnvMap)
        ensures
            r@ == base@.union_prefer_right(self@),
    {
        let mut pairs: Vec<(String, String)> = Vec::new();
        let mut i: usize = 0;
        while i < base.pairs.len()
            invariant
                i <= base.pairs.len(),
                pairs@.len() == i,
                forall|k: int| 0 <= k < i ==> pairs@[k] == base.pairs@[k],
            decreases base.pairs.len() - i,
        {
            pairs.push((base.pairs[i].0.clone(), base.pairs[i].1.clone()));
            i += 1;
        }
        let ghost base_part = pairs@;
        let mut j: usize = 0;
        while j < self.pairs.len()
            invariant
                j <= self.pairs.len(),
                pairs@.len() == base_part.len() + j,
                pairs@.subrange(0, base_part.len() as int) =~= base_part,
                forall|k: int|
                    0 <= k < j ==> pairs@[base_part.len() + k] == self.pairs@[k],
            decreases self.pairs.len() - j,
        {
            pairs.push((self.pairs[j].0.clone(), self.pairs[j].1.clone()));
            j += 1;
        }
        proof {
            assert(base_part =~= base.pairs@);
            assert(pairs@ =~= base.pairs@ + self.pairs@);
            lemma_map_of_concat(base.pairs@, self.pairs@);
        }
        EnvMap { pairs }
    }

    /// A map holding exactly the bindings of `self`.
    pub fn duplicate(&self) -> (r: EnvMap)
        ensures
            r@ == self@,
    {
        let mut pairs: Vec<(String, String)> = Vec::new();
        let mut i: usize = 0;
        while i < self.pairs.len()
            invariant
                i <= self.pairs.len(),
                pairs@.len() == i,
                forall|k: int| 0 <= k < i ==> pairs@[k] == self.pairs@[k],
            decreases self.pairs.len() - i,
        {
            pairs.push((self.pairs[i].0.clone(), self.pairs[i].1.clone()));
            i += 1;
        }
        proof {
            assert(pairs@ =~= self.pairs@);
        }
        EnvMap { pairs }
    }

    /// The bindings as ordered pairs; a later pair overrides an earlier one.
    pub fn entries(&self) -> (r: &Vec<(String, String)>)
        ensures
            map_of(r@) == self@,
    {
        &self.pairs
    }
}

proof fn lemma_map_of_last_match(pairs: Seq<(String, String)>, idx: int, key: Seq<char>)
    requires
        0 <= idx < pairs.len(),
        pairs[idx].0@ == key,
        forall|k: int| idx < k < pairs.len() ==> pairs[k].0@ != key,
    ensures
        map_of(pairs).contains_key(key),
        map_of(pairs)[key] == pairs[idx].1@,
    decreases pairs.len(),
{
    if idx == pairs.len() - 1 {
    } else {
        lemma_map_of_last_match(pairs.drop_last(), idx, key);
    }
}

proof fn lemma_map_of_no_match(pairs: Seq<(String, String)>, key: Seq<char>)
    requires
        forall|k: int| 0 <= k < pairs.len() ==> pairs[k].0@ != key,
    ensures
        !map_of(pairs).contains_key(key),
    decreases pairs.len(),
{
    if pairs.len() > 0 {
        lemma_map_of_no_match(pairs.drop_last(), key);
    }
}

/// The environment a task runs with, merged in increasing priority:
/// the inherited process environment, then the output of the sourced
/// init-env script, then CLI-supplied overrides, then the fixed derived
/// variables, each layer overriding the ones before it on a shared name.
pub fn merge_env(inherited: &EnvMap, sourced: &EnvMap, cli: &EnvMap, derived: &EnvMap) -> (r:
    EnvMap)
    ensures
        r@ == inherited@.union_prefer_right(sourced@).union_prefer_right(cli@)
            .union_prefer_right(derived@),
{
    let low = sourced.merged_over(inherited);
    let mid = cli.merged_over(&low);
    derived.merged_over(&mid)
}

/// Parses `KEY=VALUE` arguments into an environment map; on a repeated key
/// the later argument wins.
pub open spec fn kv_map_of(args: Seq<Seq<char>>) -> Map<Seq<char>, Seq<char>>
    decreases args.len(),
{
    if args.len() == 0 {
        Map::empty()
    } else {
        kv_map_of(args.drop_last()).insert(kv_key(args.last()), kv_val(args.last()))
    }
}

/// Turns CLI `KEY=VALUE` arguments into an environment map.
pub fn env_from_args(args: &Vec<String>) -> (r: EnvMap)
    requires
        forall|k: int| 0 <= k < args@.len() ==> has_kv_sep(#[trigger] args@[k]@),
    ensures
        r@ == kv_map_of(args.deep_view()),
{
    let mut out = EnvMap::new();
    let mut i: usize = 0;
    while i < args.len()
        invariant
            i <= args@.len(),
            forall|k: int| 0 <= k < args@.len() ==> has_kv_sep(#[trigger] args@[k]@),
            out@ == kv_map_of(args.deep_view().subrange(0, i as int)),
        decreases args@.len() - i,
    {
        let (key, value) = parse_key_value(args[i].as_str());
        out.insert(key, value);
        i += 1;
        proof {
            let dv = args.deep_view();
            assert(dv.subrange(0, i as int).drop_last() =~= dv.subrange(0, i - 1));
            assert(dv.subrange(0, i as int).last() == dv[i - 1]);
        }
    }
    proof {
        assert(args.deep_view().subrange(0, args.deep_view().len() as int) =~= args.deep_view());
    }
    out
}

} // verus!
