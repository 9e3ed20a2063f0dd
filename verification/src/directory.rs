//! Resolution of a human-supplied device name against the live device
//! listing reported by the bridge: case-insensitive exact match, first
//! match in listing order.

use vstd::prelude::*;
use vstd::string::*;

verus! {

/// A device as reported by the bridge: its identifier and its name.
#[derive(Debug)]
pub struct Light {
    pub id: usize,
    pub name: String,
}

/// The lowercase form of a string of characters.
pub uninterp spec fn lower_of(s: Seq<char>) -> Seq<char>;

/// Relies on str::to_lowercase: the lowercase form of a string depends on
/// its characters alone.
#[verifier::external_body]
fn to_lowercase(s: &str) -> (r: String)
    ensures
        r@ == lower_of(s@),
{
    s.to_lowercase()
}

/// Whether a light's name matches the queried name, up to case.
pub open spec fn name_matches(light_name: Seq<char>, query: Seq<char>) -> bool {
    lower_of(light_name) == lower_of(query)
}

/// The identifier of the first light in listing order whose name matches
/// the query, up to case; `None` when no name matches.
pub open spec fn spec_first_match(lights: Seq<Light>, query: Seq<char>) -> Option<usize>
    decreases lights.len(),
{
    if lights.len() == 0 {
        None
    } else if name_matches(lights[0].name@, query) {
        Some(lights[0].id)
    } else {
        spec_first_match(lights.drop_first(), query)
    }
}

/// Finds the first light whose name equals `name` case-insensitively, in
/// listing order; duplicate names beyond the first match are ignored.
pub fn identify_light_by_name(lights: &Vec<Light>, name: &str) -> (r: Option<usize>)
    ensures
        r == spec_first_match(lights@, name@),
{
    let query = to_lowercase(name);
    let mut idx: usize = 0;
    proof {
        assert(lights@.skip(0) =~= lights@);
    }
    while idx < lights.len()
        invariant
            0 <= idx <= lights@.len(),
            query@ == lower_of(name@),
            spec_first_match(lights@, name@) == spec_first_match(lights@.skip(idx as int), name@),
        decreases lights@.len() - idx,
    {
        proof {
            assert(lights@.skip(idx as int)[0] == lights@[idx as int]);
        }
        let lowered = to_lowercase(lights[idx].name.as_str());
        if lowered == query {
            return Some(lights[idx].id);
        }
        proof {
            assert(lights@.skip(idx as int).drop_first() =~= lights@.skip(idx + 1));
        }
        idx = idx + 1;
    }
    proof {
        assert(lights@.skip(idx as int) =~= Seq::<Light>::empty());
    }
    None
}

/// The result of fetching the device listing from the bridge.
pub enum DirectoryFetch {
    /// The listing, in the order the bridge reports it.
    Listing(Vec<Light>),
    /// The fetch failed; resolution then finds no device.
    FetchFailed,
}

/// Resolution over a fetch result: a failed fetch resolves nothing, a
/// listing resolves to its first case-insensitive match.
pub open spec fn spec_resolve(fetch: DirectoryFetch, query: Seq<char>) -> Option<usize> {
    match fetch {
        DirectoryFetch::Listing(lights) => spec_first_match(lights@, query),
        DirectoryFetch::FetchFailed => None,
    }
}

/// Resolves a device name against a fetch result. A failed fetch is
/// treated as no device matching, so the command silently does nothing.
pub fn resolve_device(fetch: &DirectoryFetch, name: &str) -> (r: Option<usize>)
    ensures
        r == spec_resolve(*fetch, name@),
{
    match fetch {
        DirectoryFetch::Listing(lights) => identify_light_by_name(lights, name),
        DirectoryFetch::FetchFailed => None,
    }
}

} // verus!
