//! Rows keyed by a string and kept in the order of their keys, each key once.

use vstd::prelude::*;

use crate::text::{characters, same};

verus! {

/// The key of a row and its value.
pub type Row = (Seq<char>, Seq<char>);

/// `a` and `b` agree up to `i`, and there `a` ends or holds the smaller character.
pub open spec fn parts_at(a: Seq<char>, b: Seq<char>, i: int) -> bool {
    &&& 0 <= i <= a.len()
    &&& i < b.len()
    &&& forall|j: int| 0 <= j < i ==> a[j] == b[j]
    &&& i == a.len() || a[i] < b[i]
}

/// The lexicographic order of strings by their characters' code points.
pub open spec fn before(a: Seq<char>, b: Seq<char>) -> bool {
    exists|i: int| parts_at(a, b, i)
}

/// No string comes before itself.
pub proof fn lemma_before_irreflexive(a: Seq<char>)
    ensures
        !before(a, a),
{
}

/// What comes before a string comes before all that the string comes before.
pub proof fn lemma_before_transitive(a: Seq<char>, b: Seq<char>, c: Seq<char>)
    requires
        before(a, b),
        before(b, c),
    ensures
        before(a, c),
{
    let i = choose|i: int| parts_at(a, b, i);
    let j = choose|j: int| parts_at(b, c, j);
    let k = if i <= j { i } else { j };
    assert(parts_at(a, c, k));
}

/// Of two strings, not each comes before the other.
pub proof fn lemma_before_asymmetric(a: Seq<char>, b: Seq<char>)
    requires
        before(a, b),
    ensures
        !before(b, a),
        a != b,
{
    if before(b, a) {
        lemma_before_transitive(a, b, a);
    }
    lemma_before_irreflexive(a);
}

/// How one string stands to another in the lexicographic order.
#[derive(Debug, Clone, Copy, PartialEq, Eq, Structural)]
pub enum Side {
    Before,
    Same,
    After,
}

/// Finds on which side of `b` the string `a` stands.
pub fn side(a: &str, b: &str) -> (r: Side)
    ensures
        r == Side::Before <==> before(a@, b@),
        r == Side::Same <==> a@ == b@,
        r == Side::After <==> before(b@, a@),
{
    let left: Vec<char> = characters(a);
    let right: Vec<char> = characters(b);
    let mut i: usize = 0;
    while i < left.len() && i < right.len() && left[i] == right[i]
        invariant
            left@ == a@,
            right@ == b@,
            i <= left.len(),
            i <= right.len(),
            forall|j: int| 0 <= j < i ==> a@[j] == b@[j],
        decreases left.len() - i,
    {
        i = i + 1;
    }
    if i == right.len() {
        if i == left.len() {
            assert(a@ =~= b@);
            proof {
                lemma_before_irreflexive(a@);
            }
            Side::Same
        } else {
            assert(parts_at(b@, a@, i as int));
            proof {
                lemma_before_asymmetric(b@, a@);
            }
            Side::After
        }
    } else if i == left.len() || left[i] < right[i] {
        assert(parts_at(a@, b@, i as int));
        proof {
            lemma_before_asymmetric(a@, b@);
        }
        Side::Before
    } else {
        assert(parts_at(b@, a@, i as int));
        proof {
            lemma_before_asymmetric(b@, a@);
        }
        Side::After
    }
}

/// The keys ascend, so that each occurs once.
pub open spec fn ascending(keys: Seq<Seq<char>>) -> bool {
    forall|i: int, j: int| 0 <= i < j < keys.len() ==> before(#[trigger] keys[i], #[trigger] keys[j])
}

/// The keys of the rows, in their order.
pub open spec fn keys(rows: Seq<Row>) -> Seq<Seq<char>> {
    rows.map_values(|row: Row| row.0)
}

/// The value that the rows hold for a key.
pub open spec fn lookup(rows: Seq<Row>, key: Seq<char>) -> Option<Seq<char>>
    decreases rows.len(),
{
    if rows.len() == 0 {
        None
    } else if rows.last().0 == key {
        Some(rows.last().1)
    } else {
        lookup(rows.drop_last(), key)
    }
}

/// The rows with `value` for `key`: in the place of the row that had the key,
/// or as a new row in the order of the keys.
pub open spec fn insert_row(rows: Seq<Row>, key: Seq<char>, value: Seq<char>) -> Seq<Row>
    decreases rows.len(),
{
    if rows.len() == 0 || before(rows.last().0, key) {
        rows.push((key, value))
    } else if rows.last().0 == key {
        rows.drop_last().push((key, value))
    } else {
        insert_row(rows.drop_last(), key, value).push(rows.last())
    }
}

/// Every key of the rows with one inserted is the new key or was a key before.
proof fn lemma_insert_row_keys(rows: Seq<Row>, key: Seq<char>, value: Seq<char>)
    ensures
        forall|i: int|
            0 <= i < insert_row(rows, key, value).len() ==> {
                let k = #[trigger] insert_row(rows, key, value)[i].0;
                k == key || exists|j: int| 0 <= j < rows.len() && rows[j].0 == k
            },
    decreases rows.len(),
{
    if rows.len() != 0 && !before(rows.last().0, key) && rows.last().0 != key {
        let rest = rows.drop_last();
        lemma_insert_row_keys(rest, key, value);
        assert forall|i: int| 0 <= i < insert_row(rows, key, value).len() implies {
            let k = #[trigger] insert_row(rows, key, value)[i].0;
            k == key || exists|j: int| 0 <= j < rows.len() && rows[j].0 == k
        } by {
            let k = insert_row(rows, key, value)[i].0;
            if i < insert_row(rest, key, value).len() {
                assert(k == insert_row(rest, key, value)[i].0);
                if k != key {
                    let j = choose|j: int| 0 <= j < rest.len() && rest[j].0 == k;
                    assert(rows[j].0 == k);
                }
            } else {
                assert(rows[rows.len() - 1].0 == k);
            }
        }
    }
}

/// Inserting keeps the keys ascending, and changes what is found for that key alone.
pub proof fn lemma_insert_row(rows: Seq<Row>, key: Seq<char>, value: Seq<char>)
    requires
        ascending(keys(rows)),
    ensures
        ascending(keys(insert_row(rows, key, value))),
        forall|k: Seq<char>|
            #[trigger] lookup(insert_row(rows, key, value), k) == if k == key {
                Some(value)
            } else {
                lookup(rows, k)
            },
    decreases rows.len(),
{
    let out = insert_row(rows, key, value);
    if rows.len() == 0 {
        assert(out.drop_last() =~= rows);
    } else {
        let last = rows.last();
        let rest = rows.drop_last();
        assert(keys(rest) =~= keys(rows).drop_last());
        assert(forall|j: int|
            0 <= j < rest.len() ==> before(#[trigger] rest[j].0, last.0)) by {
            assert forall|j: int| 0 <= j < rest.len() implies before(#[trigger] rest[j].0, last.0) by {
                assert(keys(rows)[j] == rest[j].0);
                assert(keys(rows)[rows.len() - 1] == last.0);
            }
        }
        if before(last.0, key) {
            assert(out.drop_last() =~= rows);
            assert forall|i: int, j: int| 0 <= i < j < out.len() implies before(
                #[trigger] keys(out)[i],
                #[trigger] keys(out)[j],
            ) by {
                if j < rows.len() {
                    assert(keys(out)[i] == keys(rows)[i]);
                    assert(keys(out)[j] == keys(rows)[j]);
                } else if i < rows.len() - 1 {
                    assert(keys(out)[i] == rest[i].0);
                    lemma_before_transitive(rest[i].0, last.0, key);
                }
            }
        } else if last.0 == key {
            assert(out.drop_last() =~= rest);
            assert(keys(out) =~= keys(rows));
        } else {
            lemma_insert_row(rest, key, value);
            lemma_insert_row_keys(rest, key, value);
            assert(out.drop_last() =~= insert_row(rest, key, value));
            lemma_before_total(key, last.0);
            assert forall|i: int, j: int| 0 <= i < j < out.len() implies before(
                #[trigger] keys(out)[i],
                #[trigger] keys(out)[j],
            ) by {
                let inner = insert_row(rest, key, value);
                assert(keys(out)[i] == keys(inner)[i]);
                if j < inner.len() {
                    assert(keys(out)[j] == keys(inner)[j]);
                } else {
                    let k = inner[i].0;
                    if k != key {
                        let m = choose|m: int| 0 <= m < rest.len() && rest[m].0 == k;
                        assert(before(rest[m].0, last.0));
                    }
                }
            }
        }
    }
}

/// Of two different strings one stands before the other.
pub proof fn lemma_before_total(a: Seq<char>, b: Seq<char>)
    ensures
        a == b || before(a, b) || before(b, a),
{
    lemma_parts(a, b, 0);
}

proof fn lemma_parts(a: Seq<char>, b: Seq<char>, i: int)
    requires
        0 <= i <= a.len(),
        i <= b.len(),
        forall|j: int| 0 <= j < i ==> a[j] == b[j],
    ensures
        a == b || before(a, b) || before(b, a),
    decreases a.len() - i,
{
    if i < a.len() && i < b.len() && a[i] == b[i] {
        lemma_parts(a, b, i + 1);
    } else if i == a.len() && i == b.len() {
        assert(a =~= b);
    } else if i == a.len() || (i < b.len() && a[i] < b[i]) {
        assert(parts_at(a, b, i));
    } else {
        assert(parts_at(b, a, i));
    }
}

/// Where the keys ascend, the rows hold each row's value for that row's key, and
/// for no other key a value.
pub proof fn lemma_lookup(rows: Seq<Row>)
    ensures
        ascending(keys(rows)) ==> forall|i: int|
            0 <= i < rows.len() ==> lookup(rows, (#[trigger] rows[i]).0) == Some(rows[i].1),
        forall|k: Seq<char>| #[trigger]
            lookup(rows, k) is Some <==> exists|i: int| 0 <= i < rows.len() && rows[i].0 == k,
    decreases rows.len(),
{
    if rows.len() > 0 {
        let rest = rows.drop_last();
        lemma_lookup(rest);
        assert(keys(rest) =~= keys(rows).drop_last());
        assert forall|k: Seq<char>| #[trigger] lookup(rows, k) is Some <==> exists|i: int|
            0 <= i < rows.len() && rows[i].0 == k by {
            if rows.last().0 == k {
                assert(rows[rows.len() - 1].0 == k);
            } else {
                if lookup(rest, k) is Some {
                    let i = choose|i: int| 0 <= i < rest.len() && rest[i].0 == k;
                    assert(rows[i].0 == k);
                }
                if exists|i: int| 0 <= i < rows.len() && rows[i].0 == k {
                    let i = choose|i: int| 0 <= i < rows.len() && rows[i].0 == k;
                    assert(rest[i].0 == k);
                }
            }
        }
        if ascending(keys(rows)) {
            assert forall|i: int| 0 <= i < rows.len() implies lookup(rows, (#[trigger] rows[i]).0)
                == Some(rows[i].1) by {
                if i < rows.len() - 1 {
                    assert(rest[i] == rows[i]);
                    assert(keys(rows)[i] == rows[i].0);
                    assert(keys(rows)[rows.len() - 1] == rows.last().0);
                    lemma_before_asymmetric(rows[i].0, rows.last().0);
                }
            }
        }
    }
}

/// Values by string keys, in the order of the keys.
#[derive(Debug)]
pub struct Rows {
    pub rows: Vec<(String, String)>,
}

impl View for Rows {
    type V = Seq<Row>;

    open spec fn view(&self) -> Seq<Row> {
        self.rows.deep_view()
    }
}

impl Rows {
    /// The keys ascend.
    pub open spec fn wf(&self) -> bool {
        ascending(keys(self@))
    }

    /// No rows.
    pub fn new() -> (r: Rows)
        ensures
            r@ == Seq::<Row>::empty(),
            r.wf(),
    {
        let r: Rows = Rows { rows: Vec::new() };
        assert(r@ =~= Seq::<Row>::empty());
        r
    }

    /// How many rows there are.
    pub fn len(&self) -> (n: usize)
        ensures
            n == self@.len(),
    {
        self.rows.len()
    }

    /// Sets the value of a key.
    pub fn insert(&mut self, key: String, value: String)
        requires
            old(self).wf(),
        ensures
            final(self)@ == insert_row(old(self)@, key@, value@),
            final(self).wf(),
    {
        let ghost before_rows = self@;
        proof {
            lemma_insert_row(before_rows, key@, value@);
        }
        let mut i: usize = self.rows.len();
        assert(before_rows.take(i as int) =~= before_rows);
        assert(before_rows.skip(i as int) =~= seq![]);
        assert(insert_row(before_rows, key@, value@) =~= insert_row(
            before_rows.take(i as int),
            key@,
            value@,
        ) + before_rows.skip(i as int));
        while i > 0
            invariant_except_break
                i <= self.rows.len(),
                self@ == before_rows,
                insert_row(before_rows, key@, value@) == insert_row(
                    before_rows.take(i as int),
                    key@,
                    value@,
                ) + before_rows.skip(i as int),
            ensures
                i <= self.rows.len(),
                self@ == before_rows,
                insert_row(before_rows, key@, value@) == insert_row(
                    before_rows.take(i as int),
                    key@,
                    value@,
                ) + before_rows.skip(i as int),
                i == 0 || before(before_rows[i - 1].0, key@) || before_rows[i - 1].0 == key@,
            decreases i,
        {
            let ghost head = before_rows.take(i as int);
            let s: Side = side(self.rows[i - 1].0.as_str(), key.as_str());
            assert(before_rows[i - 1].0 == self.rows[i - 1].0@);
            if s != Side::After {
                break;
            }
            proof {
                lemma_before_asymmetric(key@, before_rows[i - 1].0);
                assert(head.last() == before_rows[i - 1]);
                assert(head.drop_last() =~= before_rows.take(i - 1));
                assert(insert_row(head.drop_last(), key@, value@).push(head.last())
                    + before_rows.skip(i as int) =~= insert_row(
                    before_rows.take(i - 1),
                    key@,
                    value@,
                ) + before_rows.skip(i - 1));
            }
            i = i - 1;
        }
        let ghost head = before_rows.take(i as int);
        if i > 0 && same(self.rows[i - 1].0.as_str(), key.as_str()) {
            proof {
                assert(head.last() == before_rows[i - 1]);
                lemma_before_irreflexive(key@);
            }
            self.rows.set(i - 1, (key, value));
            assert(self@ =~= head.drop_last().push((key@, value@)) + before_rows.skip(i as int));
        } else {
            proof {
                if i > 0 {
                    assert(head.last() == before_rows[i - 1]);
                }
            }
            self.rows.insert(i, (key, value));
            assert(self@ =~= head.push((key@, value@)) + before_rows.skip(i as int));
        }
    }

    /// The value of a key.
    pub fn get(&self, key: &str) -> (r: Option<&str>)
        ensures
            r.deep_view() == lookup(self@, key@),
    {
        let mut i: usize = self.rows.len();
        assert(self@.take(i as int) =~= self@);
        while i > 0
            invariant
                i <= self.rows.len(),
                lookup(self@, key@) == lookup(self@.take(i as int), key@),
            decreases i,
        {
            let ghost head = self@.take(i as int);
            assert(head.last() == self@[i - 1]);
            assert(head.drop_last() =~= self@.take(i - 1));
            if same(self.rows[i - 1].0.as_str(), key) {
                return Some(self.rows[i - 1].1.as_str());
            }
            i = i - 1;
        }
        None
    }
}

} // verus!
