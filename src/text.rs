//! Key/value responses as the server sends them, and lookups over them.
use vstd::prelude::*;

verus! {

/// One `key: value` line of a server response.
pub type Pair = (String, String);

/// The key/value lines of a response, as text.
pub open spec fn pairs_view(ps: Seq<Pair>) -> Seq<(Seq<char>, Seq<char>)> {
    ps.map_values(|p: Pair| (p.0@, p.1@))
}

/// The value that the last line with key `key` carries, or the empty text
/// where no line has that key (a later line overrides an earlier one).
pub open spec fn last_value(ps: Seq<(Seq<char>, Seq<char>)>, key: Seq<char>) -> Seq<char>
    decreases ps.len(),
{
    if ps.len() == 0 {
        Seq::empty()
    } else if ps.last().0 == key {
        ps.last().1
    } else {
        last_value(ps.drop_last(), key)
    }
}

/// Whether `a` holds exactly the text `b`.
pub fn same_text(a: &String, b: &str) -> (r: bool)
    ensures
        r == (a@ == b@),
{
    let owned = b.to_owned();
    *a == owned
}

/// The value of the last line with key `key`, or an empty string.
pub fn lookup_last(ps: &Vec<Pair>, key: &str) -> (r: String)
    ensures
        r@ == last_value(pairs_view(ps@), key@),
{
    let mut r = String::new();
    let mut i: usize = 0;
    while i < ps.len()
        invariant
            i <= ps.len(),
            r@ == last_value(pairs_view(ps@.subrange(0, i as int)), key@),
        decreases ps.len() - i,
    {
        proof {
            assert(pairs_view(ps@.subrange(0, i + 1)).drop_last() =~= pairs_view(ps@.subrange(0, i as int)));
        }
        if same_text(&ps[i].0, key) {
            r = ps[i].1.clone();
        }
        i = i + 1;
    }
    proof {
        assert(ps@.subrange(0, ps.len() as int) =~= ps@);
    }
    r
}

} // verus!
