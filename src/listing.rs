use vstd::prelude::*;

use crate::error::ToolError;
use crate::filter::{accepts, filter_view, keeps, Filter};
use crate::path::{normalize, normalized};

verus! {

/// The character sequences of a sequence of strings.
pub open spec fn views(v: Seq<String>) -> Seq<Seq<char>> {
    v.map_values(|s: String| s@)
}

/// The normalized names that a listing yields under an optional pattern, in
/// listing order.
pub open spec fn listed(names: Seq<Seq<char>>, pattern: Option<Seq<char>>) -> Seq<Seq<char>>
    decreases names.len(),
{
    if names.len() == 0 {
        seq![]
    } else {
        let prev = listed(names.drop_last(), pattern);
        let n = normalized(names.last());
        if keeps(pattern, n) {
            prev.push(n)
        } else {
            prev
        }
    }
}

/// The archive's listing, normalized and filtered, in its own order. Fails
/// with `ListfileNotFound` when the archive has no listing.
pub fn list(listing: Option<Vec<String>>, filter: &Option<Filter>) -> (r: Result<
    Vec<String>,
    ToolError,
>)
    ensures
        r is Err <==> listing is None,
        r matches Err(e) ==> e is ListfileNotFound,
        r matches Ok(v) ==> views(v@) == listed(views(listing->0@), filter_view(*filter)),
{
    let names = match listing {
        Some(names) => names,
        None => return Err(ToolError::ListfileNotFound),
    };
    let mut out: Vec<String> = Vec::new();
    let mut i: usize = 0;
    while i < names.len()
        invariant
            i <= names@.len(),
            views(out@) == listed(views(names@.subrange(0, i as int)), filter_view(*filter)),
        decreases names@.len() - i,
    {
        let n = normalize(names[i].as_str());
        let keep = accepts(filter, n.as_str());
        let ghost before = out@;
        if keep {
            out.push(n);
            assert(views(out@) =~= views(before).push(n@));
        }
        assert(views(names@.subrange(0, i + 1)).drop_last() =~= views(names@.subrange(0, i as int)));
        i += 1;
    }
    assert(names@.subrange(0, names@.len() as int) =~= names@);
    Ok(out)
}

} // verus!
