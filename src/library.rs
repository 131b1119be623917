//! Keeping the selection store's universe equal to the server's library.
use vstd::prelude::*;

verus! {

/// The texts of a list of strings.
pub open spec fn texts(v: Seq<String>) -> Seq<Seq<char>> {
    v.map_values(|s: String| s@)
}

/// Whether `x` holds one of the texts of `v`.
pub fn contains_text(v: &Vec<String>, x: &String) -> (r: bool)
    ensures
        r == texts(v@).contains(x@),
{
    let mut i: usize = 0;
    while i < v.len()
        invariant
            i <= v.len(),
            forall|j: int| 0 <= j < i ==> v@[j]@ != x@,
        decreases v.len() - i,
    {
        if v[i] == *x {
            proof {
                assert(texts(v@)[i as int] == x@);
            }
            return true;
        }
        i = i + 1;
    }
    proof {
        if texts(v@).contains(x@) {
            let j = choose|j: int| 0 <= j < texts(v@).len() && texts(v@)[j] == x@;
            assert(v@[j]@ == x@);
        }
    }
    false
}

proof fn lemma_push_contains(s: Seq<Seq<char>>, v: Seq<char>, x: Seq<char>)
    ensures
        s.push(v).contains(x) <==> (s.contains(x) || x == v),
{
    if s.contains(x) {
        let j = choose|j: int| 0 <= j < s.len() && s[j] == x;
        assert(s.push(v)[j] == x);
    }
    if x == v {
        assert(s.push(v)[s.len() as int] == v);
    }
    if s.push(v).contains(x) {
        let j = choose|j: int| 0 <= j < s.push(v).len() && s.push(v)[j] == x;
        if j < s.len() {
            assert(s[j] == x);
        }
    }
}

/// The changes that bring a store in line with the server's listing.
#[derive(Debug)]
pub struct Reconciliation {
    /// Files on the server that the store lacks, each once.
    pub load: Vec<String>,
    /// Store members the server no longer lists, each once.
    pub soft_remove: Vec<String>,
}

/// The texts of `a` that are not texts of `b`, each once: the loop body
/// shared by both halves of a reconciliation.
fn missing_from(a: &Vec<String>, b: &Vec<String>) -> (r: Vec<String>)
    ensures
        texts(r@).no_duplicates(),
        forall|x: Seq<char>| #[trigger] texts(r@).contains(x)
            <==> (texts(a@).contains(x) && !texts(b@).contains(x)),
{
    let mut r: Vec<String> = Vec::new();
    let mut i: usize = 0;
    while i < a.len()
        invariant
            i <= a.len(),
            texts(r@).no_duplicates(),
            forall|x: Seq<char>| #[trigger] texts(r@).contains(x)
                <==> (texts(a@.subrange(0, i as int)).contains(x) && !texts(b@).contains(x)),
        decreases a.len() - i,
    {
        let ghost before = texts(r@);
        let ghost seen = texts(a@.subrange(0, i as int));
        let ghost item = a@[i as int]@;
        proof {
            assert(texts(a@.subrange(0, i + 1)) =~= seen.push(item));
            assert forall|x: Seq<char>| #[trigger] seen.push(item).contains(x)
                <==> (seen.contains(x) || x == item) by {
                lemma_push_contains(seen, item, x);
            }
        }
        if !contains_text(b, &a[i]) && !contains_text(&r, &a[i]) {
            r.push(a[i].clone());
            proof {
                assert(texts(r@) =~= before.push(item));
                assert forall|x: Seq<char>| #[trigger] before.push(item).contains(x)
                    <==> (before.contains(x) || x == item) by {
                    lemma_push_contains(before, item, x);
                }
            }
        }
        i = i + 1;
    }
    proof {
        assert(a@.subrange(0, a.len() as int) =~= a@);
    }
    r
}

/// What to load into and soft-remove from a store holding `store` so that
/// it holds exactly the files of `server`.
pub fn update_files(server: &Vec<String>, store: &Vec<String>) -> (r: Reconciliation)
    ensures
        texts(r.load@).no_duplicates(),
        texts(r.soft_remove@).no_duplicates(),
        texts(r.load@).to_set() == texts(server@).to_set().difference(texts(store@).to_set()),
        texts(r.soft_remove@).to_set() == texts(store@).to_set().difference(texts(server@).to_set()),
{
    let load = missing_from(server, store);
    let soft_remove = missing_from(store, server);
    proof {
        assert(texts(load@).to_set() =~= texts(server@).to_set().difference(texts(store@).to_set()));
        assert(texts(soft_remove@).to_set() =~= texts(store@).to_set().difference(texts(server@).to_set()));
    }
    Reconciliation { load, soft_remove }
}

/// The universe of a store that held `store` once `load` was loaded and
/// `soft_remove` soft-removed.
pub open spec fn universe_after(
    store: Set<Seq<char>>,
    load: Set<Seq<char>>,
    soft_remove: Set<Seq<char>>,
) -> Set<Seq<char>> {
    store.union(load).difference(soft_remove)
}

/// Whatever the server lists and the store holds, applying the
/// reconciliation leaves the store's universe equal to the server's
/// listing; it loads exactly what only the server has and soft-removes
/// exactly what only the store has.
pub proof fn lemma_reconciliation_matches_server(
    server: Set<Seq<char>>,
    store: Set<Seq<char>>,
)
    ensures
        universe_after(store, server.difference(store), store.difference(server)) == server,
{
    assert(universe_after(store, server.difference(store), store.difference(server)) =~= server);
}

} // verus!
