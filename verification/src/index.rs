//! The index: the records in order, each once.

use vstd::prelude::*;
use vstd::seq_lib::*;
use crate::record::{lemma_record_order, record_le, record_lt, views, FunctionRecord, RecordView};

verus! {

broadcast use {vstd::multiset::group_multiset_axioms, vstd::seq_lib::group_to_multiset_ensures};

/// No record is listed after one that it precedes.
pub open spec fn sorted(records: Seq<RecordView>) -> bool {
    forall|i: int, j: int| 0 <= i < j < records.len() ==> record_le(records[i], records[j])
}

/// Each record precedes all that are listed after it: the records are in
/// order, and none occurs twice.
pub open spec fn strictly_sorted(records: Seq<RecordView>) -> bool {
    forall|i: int, j: int| 0 <= i < j < records.len() ==> record_lt(records[i], records[j])
}

/// The two sequences hold the same records, however often and in whatever
/// order.
pub open spec fn same_records(a: Seq<RecordView>, b: Seq<RecordView>) -> bool {
    forall|r: RecordView| a.contains(r) <==> b.contains(r)
}

/// `records` without each record that equals the one just before it.
pub open spec fn deduplicated(records: Seq<RecordView>) -> Seq<RecordView>
    decreases records.len(),
{
    if records.len() == 0 {
        records
    } else {
        let front = deduplicated(records.drop_last());
        if front.len() > 0 && front.last() == records.last() {
            front
        } else {
            front.push(records.last())
        }
    }
}

/// `index` is the index of `records`: it lists the records that `records`
/// holds, in order, each once.
pub open spec fn is_index_of(index: Seq<RecordView>, records: Seq<RecordView>) -> bool {
    strictly_sorted(index) && same_records(index, records)
}

/// The order with equality is transitive.
pub proof fn lemma_record_le_transitive(a: RecordView, b: RecordView, c: RecordView)
    requires
        record_le(a, b),
        record_le(b, c),
    ensures
        record_le(a, c),
{
    lemma_record_order(a, b, c);
}

/// Removing adjacent repetitions keeps the last record, loses no record and
/// adds none, and leaves a sequence that was in order without repetitions.
pub proof fn lemma_deduplicated(records: Seq<RecordView>)
    ensures
        deduplicated(records).len() <= records.len(),
        records.len() > 0 ==> deduplicated(records).len() > 0 && deduplicated(records).last()
            == records.last(),
        same_records(deduplicated(records), records),
        sorted(records) ==> strictly_sorted(deduplicated(records)),
    decreases records.len(),
{
    if records.len() > 0 {
        let front = records.drop_last();
        let last = records.last();
        let kept = deduplicated(front);
        let result = deduplicated(records);
        lemma_deduplicated(front);
        assert forall|r: RecordView| result.contains(r) <==> records.contains(r) by {
            if result.contains(r) {
                let i = choose|i: int| 0 <= i < result.len() && result[i] == r;
                if i < kept.len() {
                    assert(kept[i] == r);
                    assert(kept.contains(r));
                    assert(front.contains(r));
                    let k = choose|k: int| 0 <= k < front.len() && front[k] == r;
                    assert(records[k] == r);
                } else {
                    assert(records[records.len() - 1] == r);
                }
            }
            if records.contains(r) {
                let i = choose|i: int| 0 <= i < records.len() && records[i] == r;
                if i < front.len() {
                    assert(front[i] == r);
                    assert(front.contains(r));
                    assert(kept.contains(r));
                    let k = choose|k: int| 0 <= k < kept.len() && kept[k] == r;
                    assert(result[k] == r);
                } else {
                    assert(result[result.len() - 1] == r);
                }
            }
        }
        if sorted(records) {
            assert(sorted(front)) by {
                assert forall|i: int, j: int| 0 <= i < j < front.len() implies record_le(
                    front[i],
                    front[j],
                ) by {
                    assert(front[i] == records[i] && front[j] == records[j]);
                }
            }
            assert forall|i: int, j: int| 0 <= i < j < result.len() implies record_lt(
                result[i],
                result[j],
            ) by {
                if j < kept.len() {
                    assert(result[i] == kept[i] && result[j] == kept[j]);
                } else {
                    assert(result[j] == last);
                    assert(kept.last() == front.last());
                    assert(front.last() == records[records.len() - 2]);
                    assert(record_le(records[records.len() - 2], records[records.len() - 1]));
                    assert(result[i] == kept[i]);
                    lemma_record_order(kept[i], kept.last(), last);
                }
            }
        }
    }
}

/// A sequence of records has one index only.
pub proof fn lemma_index_unique(a: Seq<RecordView>, b: Seq<RecordView>)
    requires
        strictly_sorted(a),
        strictly_sorted(b),
        same_records(a, b),
    ensures
        a == b,
    decreases a.len(),
{
    if a.len() == 0 {
        if b.len() > 0 {
            assert(b.contains(b[0]));
            assert(a.contains(b[0]));
        }
        assert(a =~= b);
    } else {
        assert(a.contains(a.last()));
        assert(b.contains(a.last()));
        let bi = choose|i: int| 0 <= i < b.len() && b[i] == a.last();
        assert(b.contains(b.last()));
        assert(a.contains(b.last()));
        let ai = choose|i: int| 0 <= i < a.len() && a[i] == b.last();
        lemma_record_order(a.last(), b.last(), a.last());
        assert(a.last() == b.last());
        let a0 = a.drop_last();
        let b0 = b.drop_last();
        assert forall|r: RecordView| a0.contains(r) <==> b0.contains(r) by {
            if a0.contains(r) {
                let i = choose|i: int| 0 <= i < a0.len() && a0[i] == r;
                assert(a[i] == r);
                assert(record_lt(a[i], a.last()));
                lemma_record_order(r, a.last(), r);
                assert(a.contains(r));
                assert(b.contains(r));
                let k = choose|k: int| 0 <= k < b.len() && b[k] == r;
                assert(b0[k] == r);
            }
            if b0.contains(r) {
                let i = choose|i: int| 0 <= i < b0.len() && b0[i] == r;
                assert(b[i] == r);
                assert(record_lt(b[i], b.last()));
                lemma_record_order(r, b.last(), r);
                assert(b.contains(r));
                assert(a.contains(r));
                let k = choose|k: int| 0 <= k < a.len() && a[k] == r;
                assert(a0[k] == r);
            }
        }
        assert(strictly_sorted(a0)) by {
            assert forall|i: int, j: int| 0 <= i < j < a0.len() implies record_lt(a0[i], a0[j]) by {
                assert(a0[i] == a[i] && a0[j] == a[j]);
            }
        }
        assert(strictly_sorted(b0)) by {
            assert forall|i: int, j: int| 0 <= i < j < b0.len() implies record_lt(b0[i], b0[j]) by {
                assert(b0[i] == b[i] && b0[j] == b[j]);
            }
        }
        lemma_index_unique(a0, b0);
        assert(a =~= a0.push(a.last()));
        assert(b =~= b0.push(b.last()));
    }
}

/// The records of an index are in order, and no two of them are the same.
pub proof fn lemma_index_in_order(index: Seq<RecordView>)
    requires
        strictly_sorted(index),
    ensures
        sorted(index),
        forall|i: int, j: int| 0 <= i < j < index.len() ==> index[i] != index[j],
{
    assert forall|i: int, j: int| 0 <= i < j < index.len() implies index[i] != index[j] by {
        lemma_record_order(index[i], index[j], index[i]);
    }
}

/// Each record stands in the index exactly once, however often it occurs
/// among the records that the index was made of: records that agree in name,
/// file, line and column fall into one.
pub proof fn lemma_index_lists_once(index: Seq<RecordView>, records: Seq<RecordView>, i: int)
    requires
        is_index_of(index, records),
        0 <= i < records.len(),
    ensures
        exists|k: int| 0 <= k < index.len() && index[k] == records[i],
        forall|k1: int, k2: int|
            0 <= k1 < index.len() && 0 <= k2 < index.len() && index[k1] == records[i]
                && index[k2] == records[i] ==> k1 == k2,
{
    assert(records.contains(records[i]));
    assert(index.contains(records[i]));
    lemma_index_in_order(index);
}

/// Two records stand at the same place of the source: they agree in name,
/// file and line.
pub open spec fn same_place(a: RecordView, b: RecordView) -> bool {
    a.name == b.name && a.file == b.file && a.line == b.line
}

/// Where no two of the records stand at the same place with different
/// columns, no two records of the index stand at the same place: each name,
/// file and line occurs once.
pub proof fn lemma_index_places_once(index: Seq<RecordView>, records: Seq<RecordView>)
    requires
        is_index_of(index, records),
        forall|a: RecordView, b: RecordView|
            records.contains(a) && records.contains(b) && same_place(a, b) ==> a.column
                == b.column,
    ensures
        forall|i: int, j: int| 0 <= i < j < index.len() ==> !same_place(index[i], index[j]),
{
    lemma_index_in_order(index);
    assert forall|i: int, j: int| 0 <= i < j < index.len() implies !same_place(
        index[i],
        index[j],
    ) by {
        assert(index.contains(index[i]));
        assert(index.contains(index[j]));
        assert(records.contains(index[i]));
        assert(records.contains(index[j]));
    }
}

/// Of no records the index is empty.
pub proof fn lemma_index_of_nothing(index: Seq<RecordView>, records: Seq<RecordView>)
    requires
        is_index_of(index, records),
        records.len() == 0,
    ensures
        index.len() == 0,
{
    if index.len() > 0 {
        assert(index.contains(index[0]));
        assert(records.contains(index[0]));
    }
}

/// Merges two sequences that are in order into one.
fn merge(left: &Vec<FunctionRecord>, right: &Vec<FunctionRecord>) -> (out: Vec<FunctionRecord>)
    requires
        sorted(views(left@)),
        sorted(views(right@)),
    ensures
        sorted(views(out@)),
        views(out@).to_multiset() == views(left@).to_multiset().add(views(right@).to_multiset()),
{
    let mut out: Vec<FunctionRecord> = Vec::new();
    let mut i: usize = 0;
    let mut j: usize = 0;
    let ghost lv = views(left@);
    let ghost rv = views(right@);
    proof {
        assert(lv.take(0) =~= Seq::<RecordView>::empty());
        assert(rv.take(0) =~= Seq::<RecordView>::empty());
        assert(views(out@) =~= Seq::<RecordView>::empty());
    }
    while i < left.len() || j < right.len()
        invariant
            i <= left.len(),
            j <= right.len(),
            lv == views(left@),
            rv == views(right@),
            sorted(lv),
            sorted(rv),
            sorted(views(out@)),
            forall|k: int, p: int|
                0 <= k < out.len() && i <= p < left.len() ==> record_le(
                    #[trigger] views(out@)[k],
                    #[trigger] lv[p],
                ),
            forall|k: int, q: int|
                0 <= k < out.len() && j <= q < right.len() ==> record_le(
                    #[trigger] views(out@)[k],
                    #[trigger] rv[q],
                ),
            views(out@).to_multiset() == lv.take(i as int).to_multiset().add(
                rv.take(j as int).to_multiset(),
            ),
        decreases (left.len() - i) + (right.len() - j),
    {
        let ghost before = views(out@);
        let from_left = if i == left.len() {
            false
        } else if j == right.len() {
            true
        } else {
            !right[j].precedes(&left[i])
        };
        if from_left {
            let record = left[i].duplicate();
            out.push(record);
            proof {
                let x = lv[i as int];
                assert(views(out@) =~= before.push(x));
                assert(lv.take(i + 1) =~= lv.take(i as int).push(x));
                assert forall|k: int, q: int|
                    0 <= k < out.len() && j <= q < right.len() implies record_le(
                    #[trigger] views(out@)[k],
                    #[trigger] rv[q],
                ) by {
                    if k == before.len() {
                        lemma_record_order(x, rv[j as int], x);
                        lemma_record_le_transitive(x, rv[j as int], rv[q]);
                    }
                }
                assert(views(out@).to_multiset() =~= lv.take(i + 1).to_multiset().add(
                    rv.take(j as int).to_multiset(),
                ));
            }
            i = i + 1;
        } else {
            let record = right[j].duplicate();
            out.push(record);
            proof {
                let x = rv[j as int];
                assert(views(out@) =~= before.push(x));
                assert(rv.take(j + 1) =~= rv.take(j as int).push(x));
                assert forall|k: int, p: int|
                    0 <= k < out.len() && i <= p < left.len() implies record_le(
                    #[trigger] views(out@)[k],
                    #[trigger] lv[p],
                ) by {
                    if k == before.len() {
                        lemma_record_order(x, lv[i as int], x);
                        lemma_record_le_transitive(x, lv[i as int], lv[p]);
                    }
                }
                assert(views(out@).to_multiset() =~= lv.take(i as int).to_multiset().add(
                    rv.take(j + 1).to_multiset(),
                ));
            }
            j = j + 1;
        }
    }
    proof {
        assert(lv.take(i as int) =~= lv);
        assert(rv.take(j as int) =~= rv);
    }
    out
}

/// The records of `records` from `from` up to `to`, in order.
fn sort_range(records: &Vec<FunctionRecord>, from: usize, to: usize) -> (out: Vec<FunctionRecord>)
    requires
        from <= to <= records.len(),
    ensures
        sorted(views(out@)),
        views(out@).to_multiset() == views(records@).subrange(
            from as int,
            to as int,
        ).to_multiset(),
    decreases to - from,
{
    let ghost range = views(records@).subrange(from as int, to as int);
    if to - from == 0 {
        let out: Vec<FunctionRecord> = Vec::new();
        assert(views(out@) =~= range);
        out
    } else if to - from == 1 {
        let mut out: Vec<FunctionRecord> = Vec::new();
        out.push(records[from].duplicate());
        assert(views(out@) =~= range);
        out
    } else {
        let middle = from + (to - from) / 2;
        let left = sort_range(records, from, middle);
        let right = sort_range(records, middle, to);
        proof {
            let a = views(records@).subrange(from as int, middle as int);
            let b = views(records@).subrange(middle as int, to as int);
            assert(range =~= a + b);
            lemma_multiset_commutative(a, b);
        }
        merge(&left, &right)
    }
}

/// Puts the records in order. No record is lost and none is added: a record
/// that occurs several times still does.
pub fn sort_records(records: &mut Vec<FunctionRecord>)
    ensures
        sorted(views(final(records)@)),
        views(final(records)@).to_multiset() == views(old(records)@).to_multiset(),
{
    let out = sort_range(records, 0, records.len());
    assert(views(records@).subrange(0, records.len() as int) =~= views(records@));
    *records = out;
}

/// Removes each record that equals the one just before it. Of records that
/// are in order this leaves each once.
pub fn dedup_records(records: &mut Vec<FunctionRecord>)
    ensures
        views(final(records)@) == deduplicated(views(old(records)@)),
{
    let mut out: Vec<FunctionRecord> = Vec::new();
    let mut i: usize = 0;
    let ghost all = views(records@);
    assert(all.take(0) =~= Seq::<RecordView>::empty());
    assert(views(out@) =~= Seq::<RecordView>::empty());
    while i < records.len()
        invariant
            i <= records.len(),
            all == views(records@),
            views(out@) == deduplicated(all.take(i as int)),
        decreases records.len() - i,
    {
        let ghost before = views(out@);
        proof {
            assert(all.take(i + 1).drop_last() =~= all.take(i as int));
            assert(all.take(i + 1).last() == all[i as int]);
            if out.len() > 0 {
                assert(before.last() == out@[out.len() - 1]@);
            }
        }
        if out.len() == 0 || !out[out.len() - 1].same_as(&records[i]) {
            out.push(records[i].duplicate());
            assert(views(out@) =~= before.push(all[i as int]));
        }
        i = i + 1;
    }
    assert(all.take(i as int) =~= all);
    *records = out;
}

/// The index of `records`: the same records in order, each once.
pub fn build_index(records: Vec<FunctionRecord>) -> (index: Vec<FunctionRecord>)
    ensures
        is_index_of(views(index@), views(records@)),
        views(index@).len() <= views(records@).len(),
{
    let mut index = records;
    sort_records(&mut index);
    let ghost in_order = views(index@);
    dedup_records(&mut index);
    proof {
        lemma_deduplicated(in_order);
        to_multiset_len(in_order);
        to_multiset_len(views(records@));
        assert forall|r: RecordView| in_order.contains(r) <==> views(records@).contains(r) by {
            assert(in_order.to_multiset().count(r) == views(records@).to_multiset().count(r));
        }
    }
    index
}

} // verus!
