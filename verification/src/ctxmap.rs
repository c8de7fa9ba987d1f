use vstd::prelude::*;
use indexmap::IndexMap;

verus! {

#[verifier::external_type_specification]
#[verifier::external_body]
#[verifier::reject_recursive_types(K)]
#[verifier::reject_recursive_types(V)]
#[verifier::reject_recursive_types(S)]
pub struct ExIndexMap<K, V, S>(IndexMap<K, V, S>);

/// The context in which configuration templates are expanded.
pub type Context = IndexMap<String, String>;

/// The entries an index map holds, as a mathematical map from key text to
/// value text.
pub uninterp spec fn ctx_entries(m: Context) -> Map<Seq<char>, Seq<char>>;

/// The entries of a context that nothing has been added to.
pub open spec fn no_entries() -> Map<Seq<char>, Seq<char>> {
    Map::empty()
}

/// Relies on indexmap::IndexMap::new: the new map holds no entries.
#[verifier::external_body]
pub fn ctx_new() -> (r: Context)
    ensures
        ctx_entries(r) == no_entries(),
{
    IndexMap::new()
}

/// Relies on indexmap::IndexMap::insert: the value is stored under the key,
/// replacing any earlier value of an equivalent key; other entries are kept.
#[verifier::external_body]
pub fn ctx_insert(m: &mut Context, key: String, value: String)
    ensures
        ctx_entries(*final(m)) == ctx_entries(*old(m)).insert(key@, value@),
{
    m.insert(key, value);
}

/// Relies on indexmap::IndexMap::get: returns the value stored under the
/// key, if the key is present.
#[verifier::external_body]
pub fn ctx_get<'a>(m: &'a Context, key: &str) -> (r: Option<&'a String>)
    ensures
        r is Some <==> ctx_entries(*m).contains_key(key@),
        r is Some ==> r->0@ == ctx_entries(*m)[key@],
{
    m.get(key)
}

} // verus!
