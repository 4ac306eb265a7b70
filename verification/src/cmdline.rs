//! Joining word lists into command-line fragments.

use vstd::prelude::*;

verus! {

/// The views of the strings in a sequence.
pub open spec fn seq_views(items: Seq<String>) -> Seq<Seq<char>> {
    items.map_values(|s: String| s@)
}

/// The items joined with a single space between neighbours: empty for an
/// empty list, and no leading or trailing separator.
pub open spec fn join_spaces_spec(items: Seq<Seq<char>>) -> Seq<char>
    decreases items.len(),
{
    if items.len() == 0 {
        Seq::empty()
    } else if items.len() == 1 {
        items[0]
    } else {
        join_spaces_spec(items.drop_last()) + " "@ + items.last()
    }
}

/// Joins the items with single spaces, exactly as `join_spaces_spec` says.
pub fn join_spaces(items: &Vec<String>) -> (r: String)
    ensures
        r@ == join_spaces_spec(seq_views(items@)),
{
    let mut r = String::new();
    let mut i: usize = 0;
    while i < items.len()
        invariant
            i <= items.len(),
            r@ == join_spaces_spec(seq_views(items@).take(i as int)),
        decreases items.len() - i,
    {
        if i > 0 {
            r.append(" ");
        }
        r.append(items[i].as_str());
        proof {
            let views = seq_views(items@);
            assert(views.take(i + 1).drop_last() =~= views.take(i as int));
            assert(views.take(i + 1).last() == items@[i as int]@);
            assert(r@ =~= join_spaces_spec(views.take(i + 1)));
        }
        i = i + 1;
    }
    proof {
        assert(seq_views(items@).take(items@.len() as int) =~= seq_views(items@));
    }
    r
}

} // verus!
