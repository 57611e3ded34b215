//! The insertion-ordered string tables that the markdown renderer fills, held in
//! `indexmap::IndexMap`. Verus sees such a map only through the sequence of its entries.
use indexmap::IndexMap;
use vstd::prelude::*;

verus! {

#[verifier::external_type_specification]
#[verifier::external_body]
#[verifier::reject_recursive_types(K)]
#[verifier::reject_recursive_types(V)]
#[verifier::reject_recursive_types(S)]
pub struct ExIndexMap<K, V, S>(IndexMap<K, V, S>);

/// The key/value pairs held by an `IndexMap<String, String>`, in the map's order.
pub uninterp spec fn table_entries(m: IndexMap<String, String>) -> Seq<(Seq<char>, Seq<char>)>;

/// Whether position `i` of `es` holds key `k`.
pub open spec fn table_key_at(es: Seq<(Seq<char>, Seq<char>)>, k: Seq<char>, i: int) -> bool {
    0 <= i < es.len() && es[i].0 == k
}

/// The entries after inserting `(k, v)`: an existing key keeps its place and takes the new
/// value, a new key goes last.
pub open spec fn table_insert(es: Seq<(Seq<char>, Seq<char>)>, k: Seq<char>, v: Seq<char>) -> Seq<
    (Seq<char>, Seq<char>),
> {
    if exists|i: int| table_key_at(es, k, i) {
        let i = choose|i: int| table_key_at(es, k, i);
        es.update(i, (k, v))
    } else {
        es.push((k, v))
    }
}

/// Inserting a key whose length differs from that of every present key appends it.
pub proof fn lemma_insert_fresh(es: Seq<(Seq<char>, Seq<char>)>, k: Seq<char>, v: Seq<char>)
    requires
        forall|i: int| 0 <= i < es.len() ==> #[trigger] es[i].0.len() != k.len(),
    ensures
        table_insert(es, k, v) == es.push((k, v)),
{
    assert(!exists|i: int| table_key_at(es, k, i)) by {
        assert forall|i: int| !table_key_at(es, k, i) by {
            if 0 <= i < es.len() {
                assert(es[i].0.len() != k.len());
            }
        }
    }
}

/// The entries after inserting each pair of `ps` in order.
pub open spec fn table_insert_all(es: Seq<(Seq<char>, Seq<char>)>, ps: Seq<(Seq<char>, Seq<char>)>) -> Seq<
    (Seq<char>, Seq<char>),
>
    decreases ps.len(),
{
    if ps.len() == 0 {
        es
    } else {
        let prev = table_insert_all(es, ps.drop_last());
        table_insert(prev, ps.last().0, ps.last().1)
    }
}

/// No key occurs twice in `es`.
pub open spec fn keys_distinct(es: Seq<(Seq<char>, Seq<char>)>) -> bool {
    forall|i: int, j: int| 0 <= i < j < es.len() ==> #[trigger] es[i].0 != #[trigger] es[j].0
}

/// Inserting a key that is not present appends it.
pub proof fn lemma_insert_absent(es: Seq<(Seq<char>, Seq<char>)>, k: Seq<char>, v: Seq<char>)
    requires
        forall|i: int| 0 <= i < es.len() ==> #[trigger] es[i].0 != k,
    ensures
        table_insert(es, k, v) == es.push((k, v)),
{
    assert(!exists|i: int| table_key_at(es, k, i));
}

/// Inserting pairs whose keys are all distinct, and absent before, appends them in order.
pub proof fn lemma_insert_all_distinct(es: Seq<(Seq<char>, Seq<char>)>, ps: Seq<(Seq<char>, Seq<char>)>)
    requires
        keys_distinct(es + ps),
    ensures
        table_insert_all(es, ps) == es + ps,
    decreases ps.len(),
{
    if ps.len() > 0 {
        let init = ps.drop_last();
        assert(es + ps == (es + init).push(ps.last()));
        assert(keys_distinct(es + init)) by {
            assert forall|i: int, j: int| 0 <= i < j < (es + init).len() implies #[trigger] (es
                + init)[i].0 != #[trigger] (es + init)[j].0 by {
                assert((es + init)[i] == (es + ps)[i]);
                assert((es + init)[j] == (es + ps)[j]);
            }
        }
        lemma_insert_all_distinct(es, init);
        let prev = es + init;
        assert forall|i: int| 0 <= i < prev.len() implies #[trigger] prev[i].0 != ps.last().0 by {
            assert(prev[i] == (es + ps)[i]);
            assert((es + ps)[prev.len() as int] == ps.last());
        }
        lemma_insert_absent(prev, ps.last().0, ps.last().1);
    } else {
        assert(es + ps =~= es);
    }
}

/// Inserts every pair of `ps` into `m`, in order, as `IndexMap::extend` does.
pub fn table_extend(m: &mut IndexMap<String, String>, ps: &Vec<(String, String)>)
    ensures
        table_entries(*final(m)) == table_insert_all(
            table_entries(*old(m)),
            ps@.map_values(|p: (String, String)| (p.0@, p.1@)),
        ),
{
    let ghost start = table_entries(*m);
    let ghost pv = ps@.map_values(|p: (String, String)| (p.0@, p.1@));
    let mut i: usize = 0;
    assert(pv.take(0) =~= Seq::<(Seq<char>, Seq<char>)>::empty());
    while i < ps.len()
        invariant
            pv == ps@.map_values(|p: (String, String)| (p.0@, p.1@)),
            i <= ps.len(),
            table_entries(*m) == table_insert_all(start, pv.take(i as int)),
        decreases ps.len() - i,
    {
        let k = ps[i].0.clone();
        let v = ps[i].1.clone();
        proof {
            assert(pv.take(i + 1).drop_last() =~= pv.take(i as int));
            assert(pv.take(i + 1).last() == (k@, v@));
        }
        table_insert_pair(m, k, v);
        i = i + 1;
    }
    assert(pv.take(ps.len() as int) =~= pv);
}

/// `IndexMap::new`: an empty map.
#[verifier::external_body]
pub(crate) fn table_new() -> (m: IndexMap<String, String>)
    ensures
        table_entries(m) == Seq::<(Seq<char>, Seq<char>)>::empty(),
{
    IndexMap::new()
}

/// `IndexMap::insert`: as its documentation states, an equivalent key already present keeps
/// its place in the order and gets the new value; otherwise the pair is inserted last.
/// The previous value that the call hands back is dropped here.
#[verifier::external_body]
pub(crate) fn table_insert_pair(m: &mut IndexMap<String, String>, k: String, v: String)
    ensures
        table_entries(*final(m)) == table_insert(table_entries(*old(m)), k@, v@),
{
    m.insert(k, v);
}

} // verus!
