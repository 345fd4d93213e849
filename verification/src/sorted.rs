//! Lists of entries in ascending order of their keys: such a list is
//! determined by the mapping that it stands for.

use vstd::prelude::*;

verus! {

/// Whether `a` and `b` agree before position `i` and `a` is smaller there.
pub open spec fn smaller_at(a: Seq<u8>, b: Seq<u8>, i: int) -> bool {
    &&& 0 <= i < a.len()
    &&& i < b.len()
    &&& a[i] < b[i]
    &&& forall|j: int| 0 <= j < i ==> a[j] == b[j]
}

/// Whether `a` comes before `b` in the order of their bytes, first byte
/// first: at the first position where they differ, `a` is smaller.
pub open spec fn bytes_before(a: Seq<u8>, b: Seq<u8>) -> bool {
    exists|i: int| #[trigger] smaller_at(a, b, i)
}

/// Of two byte strings, at most one comes before the other, and none
/// before itself.
pub proof fn lemma_bytes_before_is_one_way(a: Seq<u8>, b: Seq<u8>)
    ensures
        !(bytes_before(a, b) && bytes_before(b, a)),
        !bytes_before(a, a),
{
    if bytes_before(a, b) && bytes_before(b, a) {
        let i = choose|i: int| #[trigger] smaller_at(a, b, i);
        let j = choose|j: int| #[trigger] smaller_at(b, a, j);
        if i < j {
            assert(b[i] == a[i]);
        } else if j < i {
            assert(a[j] == b[j]);
        }
    }
    if bytes_before(a, a) {
        let i = choose|i: int| #[trigger] smaller_at(a, a, i);
    }
}

/// The mapping that a list of entries stands for; of two entries with one
/// key the later counts.
pub open spec fn entries_map<V>(entries: Seq<(Seq<u8>, V)>) -> Map<Seq<u8>, V>
    decreases entries.len(),
{
    if entries.len() == 0 {
        Map::empty()
    } else {
        entries_map(entries.drop_last()).insert(entries.last().0, entries.last().1)
    }
}

/// Whether the keys of a list ascend strictly.
pub open spec fn ascending<V>(entries: Seq<(Seq<u8>, V)>) -> bool {
    forall|i: int, j: int|
        0 <= i < j < entries.len() ==> bytes_before(
            (#[trigger] entries[i]).0,
            (#[trigger] entries[j]).0,
        )
}

/// The mapping of a list has exactly the keys of its entries.
pub proof fn lemma_entries_keys<V>(entries: Seq<(Seq<u8>, V)>, key: Seq<u8>)
    ensures
        entries_map(entries).contains_key(key) <==> exists|i: int|
            0 <= i < entries.len() && (#[trigger] entries[i]).0 == key,
    decreases entries.len(),
{
    if entries.len() > 0 {
        let rest = entries.drop_last();
        lemma_entries_keys(rest, key);
        if entries_map(entries).contains_key(key) {
            if entries.last().0 == key {
                assert(entries[entries.len() - 1].0 == key);
            } else {
                let i = choose|i: int| 0 <= i < rest.len() && (#[trigger] rest[i]).0 == key;
                assert(entries[i] == rest[i]);
            }
        }
        if exists|i: int| 0 <= i < entries.len() && (#[trigger] entries[i]).0 == key {
            let i = choose|i: int| 0 <= i < entries.len() && (#[trigger] entries[i]).0 == key;
            if i < rest.len() {
                assert(rest[i] == entries[i]);
            }
        }
    }
}

/// Two lists with strictly ascending keys that stand for the same mapping
/// are the same list.
pub proof fn lemma_ascending_entries_unique<V>(a: Seq<(Seq<u8>, V)>, b: Seq<(Seq<u8>, V)>)
    requires
        ascending(a),
        ascending(b),
        entries_map(a) == entries_map(b),
    ensures
        a == b,
    decreases a.len(),
{
    if a.len() == 0 {
        if b.len() > 0 {
            assert(entries_map(b).contains_key(b.last().0));
        }
        assert(a =~= b);
    } else {
        let x = a.last();
        assert(entries_map(a).contains_key(x.0));
        if b.len() == 0 {
            assert(false);
        }
        let y = b.last();
        assert(entries_map(b).contains_key(y.0));
        lemma_entries_keys(b, x.0);
        lemma_entries_keys(a, y.0);
        let j = choose|j: int| 0 <= j < b.len() && (#[trigger] b[j]).0 == x.0;
        let i = choose|i: int| 0 <= i < a.len() && (#[trigger] a[i]).0 == y.0;
        lemma_bytes_before_is_one_way(x.0, y.0);
        lemma_bytes_before_is_one_way(x.0, x.0);
        assert(x == a[a.len() - 1]);
        assert(y == b[b.len() - 1]);
        if j < b.len() - 1 {
            assert(bytes_before(b[j].0, b[b.len() - 1].0));
        }
        if i < a.len() - 1 {
            assert(bytes_before(a[i].0, a[a.len() - 1].0));
        }
        assert(x.0 == y.0);
        assert(entries_map(a)[x.0] == x.1);
        assert(entries_map(b)[y.0] == y.1);
        assert(x.1 == y.1);
        let ra = a.drop_last();
        let rb = b.drop_last();
        assert(ascending(ra)) by {
            assert forall|p: int, q: int| 0 <= p < q < ra.len() implies bytes_before(
                (#[trigger] ra[p]).0,
                (#[trigger] ra[q]).0,
            ) by {
                assert(ra[p] == a[p] && ra[q] == a[q]);
            }
        }
        assert(ascending(rb)) by {
            assert forall|p: int, q: int| 0 <= p < q < rb.len() implies bytes_before(
                (#[trigger] rb[p]).0,
                (#[trigger] rb[q]).0,
            ) by {
                assert(rb[p] == b[p] && rb[q] == b[q]);
            }
        }
        lemma_entries_keys(ra, x.0);
        lemma_entries_keys(rb, x.0);
        assert(!entries_map(ra).contains_key(x.0)) by {
            if entries_map(ra).contains_key(x.0) {
                let p = choose|p: int| 0 <= p < ra.len() && (#[trigger] ra[p]).0 == x.0;
                assert(ra[p] == a[p]);
                assert(bytes_before(a[p].0, a[a.len() - 1].0));
            }
        }
        assert(!entries_map(rb).contains_key(x.0)) by {
            if entries_map(rb).contains_key(x.0) {
                let p = choose|p: int| 0 <= p < rb.len() && (#[trigger] rb[p]).0 == x.0;
                assert(rb[p] == b[p]);
                assert(bytes_before(b[p].0, b[b.len() - 1].0));
            }
        }
        assert(entries_map(ra) =~= entries_map(a).remove(x.0));
        assert(entries_map(rb) =~= entries_map(b).remove(x.0));
        lemma_ascending_entries_unique(ra, rb);
        assert(a =~= ra.push(x));
        assert(b =~= rb.push(y));
    }
}

} // verus!
