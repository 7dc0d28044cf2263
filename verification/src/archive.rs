//! The order in which the entries of a directory are archived. Entries are
//! archived by name, so that the archive of a directory does not depend on
//! the order in which the file system lists its entries.

use vstd::prelude::*;
use vstd::relations::{sorted_by, total_ordering};
use vstd::seq_lib::{lemma_sorted_unique, to_multiset_build, to_multiset_insert, to_multiset_len};

verus! {

/// `a` is `b` or stands before it in the order of names: names are compared
/// byte by byte, and a name stands before every longer name that begins
/// with it.
pub open spec fn name_leq(a: Seq<u8>, b: Seq<u8>) -> bool
    decreases a.len(),
{
    if a.len() == 0 {
        true
    } else if b.len() == 0 {
        false
    } else if a[0] != b[0] {
        a[0] < b[0]
    } else {
        name_leq(a.drop_first(), b.drop_first())
    }
}

/// The order of names, as a relation.
pub open spec fn by_name() -> spec_fn(Seq<u8>, Seq<u8>) -> bool {
    |a: Seq<u8>, b: Seq<u8>| name_leq(a, b)
}

/// The names of a list of entries.
pub open spec fn names_of(entries: Seq<Vec<u8>>) -> Seq<Seq<u8>> {
    entries.map_values(|name: Vec<u8>| name@)
}

/// The order in which entries with the names `names` are archived: by
/// name.
pub open spec fn archive_order_of(names: Seq<Seq<u8>>) -> Seq<Seq<u8>> {
    names.sort_by(by_name())
}

proof fn lemma_name_leq_reflexive(a: Seq<u8>)
    ensures
        name_leq(a, a),
    decreases a.len(),
{
    if a.len() > 0 {
        lemma_name_leq_reflexive(a.drop_first());
    }
}

proof fn lemma_name_leq_antisymmetric(a: Seq<u8>, b: Seq<u8>)
    requires
        name_leq(a, b),
        name_leq(b, a),
    ensures
        a == b,
    decreases a.len(),
{
    if a.len() == 0 || b.len() == 0 {
        assert(a =~= b);
    } else {
        lemma_name_leq_antisymmetric(a.drop_first(), b.drop_first());
        assert(a =~= seq![a[0]] + a.drop_first());
        assert(b =~= seq![b[0]] + b.drop_first());
    }
}

proof fn lemma_name_leq_transitive(a: Seq<u8>, b: Seq<u8>, c: Seq<u8>)
    requires
        name_leq(a, b),
        name_leq(b, c),
    ensures
        name_leq(a, c),
    decreases a.len(),
{
    if a.len() > 0 && b.len() > 0 && c.len() > 0 && a[0] == b[0] && b[0] == c[0] {
        lemma_name_leq_transitive(a.drop_first(), b.drop_first(), c.drop_first());
    }
}

proof fn lemma_name_leq_connected(a: Seq<u8>, b: Seq<u8>)
    ensures
        name_leq(a, b) || name_leq(b, a),
    decreases a.len(),
{
    if a.len() > 0 && b.len() > 0 && a[0] == b[0] {
        lemma_name_leq_connected(a.drop_first(), b.drop_first());
    }
}

/// The order of names is a total order.
pub proof fn lemma_name_order_is_total()
    ensures
        total_ordering(by_name()),
{
    let leq = by_name();
    assert forall|a: Seq<u8>| #[trigger] leq(a, a) by {
        lemma_name_leq_reflexive(a);
    }
    assert forall|a: Seq<u8>, b: Seq<u8>| #[trigger] leq(a, b) && #[trigger] leq(b, a) implies a
        == b by {
        lemma_name_leq_antisymmetric(a, b);
    }
    assert forall|a: Seq<u8>, b: Seq<u8>, c: Seq<u8>| #[trigger]
        leq(a, b) && #[trigger] leq(b, c) implies leq(a, c) by {
        lemma_name_leq_transitive(a, b, c);
    }
    assert forall|a: Seq<u8>, b: Seq<u8>| #[trigger] leq(a, b) || #[trigger] leq(b, a) by {
        lemma_name_leq_connected(a, b);
    }
}

/// A directory is archived before what it holds: a name stands before
/// every name that it begins.
pub proof fn lemma_parent_first(parent: Seq<u8>, rest: Seq<u8>)
    ensures
        name_leq(parent, parent + rest),
    decreases parent.len(),
{
    if parent.len() > 0 {
        lemma_parent_first(parent.drop_first(), rest);
        assert((parent + rest).drop_first() =~= parent.drop_first() + rest);
    }
}

/// The order of the archive does not depend on the order in which the
/// entries were found: two lists of the same names, however they are
/// arranged, are archived in the same order.
pub proof fn lemma_archive_order_is_canonical(found: Seq<Seq<u8>>, found_otherwise: Seq<Seq<u8>>)
    requires
        found.to_multiset() == found_otherwise.to_multiset(),
    ensures
        archive_order_of(found) == archive_order_of(found_otherwise),
{
    lemma_name_order_is_total();
    found.lemma_sort_by_ensures(by_name());
    found_otherwise.lemma_sort_by_ensures(by_name());
    lemma_sorted_unique(archive_order_of(found), archive_order_of(found_otherwise), by_name());
}

/// The archive order holds the names that were found, each as often as it
/// was found, and holds them in the order of names.
pub proof fn lemma_archive_order(found: Seq<Seq<u8>>)
    ensures
        archive_order_of(found).to_multiset() == found.to_multiset(),
        archive_order_of(found).len() == found.len(),
        sorted_by(archive_order_of(found), by_name()),
{
    lemma_name_order_is_total();
    found.lemma_sort_by_ensures(by_name());
    to_multiset_len(found);
    to_multiset_len(archive_order_of(found));
}

/// Whether `a` is `b` or stands before it in the order of names.
pub fn name_le(a: &Vec<u8>, b: &Vec<u8>) -> (res: bool)
    ensures
        res == name_leq(a@, b@),
{
    let mut i: usize = 0;
    assert(a@.skip(0) =~= a@);
    assert(b@.skip(0) =~= b@);
    while i < a.len() && i < b.len()
        invariant
            i <= a.len(),
            i <= b.len(),
            name_leq(a@, b@) == name_leq(a@.skip(i as int), b@.skip(i as int)),
        decreases a.len() - i,
    {
        if a[i] != b[i] {
            return a[i] < b[i];
        }
        assert(a@.skip(i as int).drop_first() =~= a@.skip(i + 1));
        assert(b@.skip(i as int).drop_first() =~= b@.skip(i + 1));
        i = i + 1;
    }
    i == a.len()
}

/// The names in the order in which their entries are archived.
pub fn archive_order(names: Vec<Vec<u8>>) -> (res: Vec<Vec<u8>>)
    ensures
        names_of(res@) == archive_order_of(names_of(names@)),
{
    let ghost found = names_of(names@);
    let mut sorted: Vec<Vec<u8>> = Vec::new();
    proof {
        lemma_name_order_is_total();
        assert(names_of(sorted@) =~= found.take(0));
    }
    for name in it: names.into_iter()
        invariant
            it.seq() == names@,
            found == names_of(names@),
            total_ordering(by_name()),
            sorted_by(names_of(sorted@), by_name()),
            names_of(sorted@).to_multiset() == found.take(it.index() as int).to_multiset(),
    {
        let mut at: usize = 0;
        while at < sorted.len() && name_le(&sorted[at], &name)
            invariant
                at <= sorted.len(),
                forall|k: int| 0 <= k < at ==> name_leq(#[trigger] sorted@[k]@, name@),
            decreases sorted.len() - at,
        {
            at = at + 1;
        }
        proof {
            let before = names_of(sorted@);
            let after = before.insert(at as int, name@);
            assert(names_of(sorted@.insert(at as int, name)) =~= after);
            assert forall|i: int, j: int| 0 <= i < j < after.len() implies #[trigger] by_name()(
                after[i],
                after[j],
            ) by {
                if j < at {
                    assert(by_name()(before[i], before[j]));
                } else if j == at {
                    assert(name_leq(sorted@[i]@, name@));
                } else if i < at {
                    assert(by_name()(before[i], before[j - 1]));
                } else if i == at {
                    lemma_name_leq_connected(before[at as int], name@);
                    if j - 1 > at {
                        assert(by_name()(before[at as int], before[j - 1]));
                        lemma_name_leq_transitive(name@, before[at as int], before[j - 1]);
                    }
                } else {
                    assert(by_name()(before[i - 1], before[j - 1]));
                }
            }
            let done = found.take(it.index() as int);
            assert(found.take(it.index() + 1) =~= done.push(name@));
            to_multiset_insert(before, at as int, name@);
            to_multiset_build(done, name@);
        }
        sorted.insert(at, name);
    }
    proof {
        assert(found.take(found.len() as int) =~= found);
        lemma_archive_order(found);
        lemma_sorted_unique(names_of(sorted@), archive_order_of(found), by_name());
    }
    sorted
}

} // verus!
