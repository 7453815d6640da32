//! Handles for numbers and strings are made once by the host and then
//! remembered: the same number or string always travels as the same handle.
use vstd::prelude::*;
use std::collections::BTreeMap;
use crate::cell::SyncUnsafeCell;
use crate::handles::{bool_handle, id_from_bool, NULL_ID, UNDEFINED_ID};
use crate::text::{encode_utf16, utf16_encode};
use crate::value::{object_view_handle, KeyView, Object, ObjectKey, Value, ValueView};

verus! {

broadcast use vstd::std_specs::btree::group_btree_axioms;

/// The strings table as a map from text to handle (a later entry for the
/// same text would win, though the table never holds two).
pub open spec fn table_view(s: Seq<(String, usize)>) -> Map<Seq<char>, usize>
    decreases s.len(),
{
    if s.len() == 0 {
        Map::empty()
    } else {
        table_view(s.drop_last()).insert(s.last().0@, s.last().1)
    }
}

/// No text occurs twice in the table.
pub open spec fn distinct_texts(s: Seq<(String, usize)>) -> bool {
    forall|i: int, j: int| 0 <= i < s.len() && 0 <= j < s.len() && i != j ==> s[i].0@ != s[j].0@
}

proof fn lemma_table_keys(s: Seq<(String, usize)>, k: Seq<char>)
    ensures
        table_view(s).contains_key(k) <==> exists|i: int| 0 <= i < s.len() && #[trigger] s[i].0@ == k,
    decreases s.len(),
{
    if s.len() > 0 {
        lemma_table_keys(s.drop_last(), k);
        if table_view(s.drop_last()).contains_key(k) {
            let i = choose|i: int| 0 <= i < s.drop_last().len() && #[trigger] s.drop_last()[i].0@ == k;
            assert(s[i].0@ == k);
        }
        if exists|i: int| 0 <= i < s.len() && #[trigger] s[i].0@ == k {
            let i = choose|i: int| 0 <= i < s.len() && #[trigger] s[i].0@ == k;
            if i < s.len() - 1 {
                assert(s.drop_last()[i].0@ == k);
            }
        }
    }
}

proof fn lemma_table_value(s: Seq<(String, usize)>, i: int)
    requires
        distinct_texts(s),
        0 <= i < s.len(),
    ensures
        table_view(s).contains_key(s[i].0@),
        table_view(s)[s[i].0@] == s[i].1,
    decreases s.len(),
{
    if i < s.len() - 1 {
        let t = s.drop_last();
        assert(distinct_texts(t)) by {
            assert forall|a: int, b: int| 0 <= a < t.len() && 0 <= b < t.len() && a != b implies t[a].0@
                != t[b].0@ by {
                assert(t[a] == s[a] && t[b] == s[b]);
            }
        }
        lemma_table_value(t, i);
        assert(t[i] == s[i]);
        assert(s.last().0@ != s[i].0@);
    }
}

/// What the runtime remembers: the handle of each number (by its bits) and
/// of each string it has sent to the host.
pub struct InternView {
    pub numbers: Map<u64, usize>,
    pub strings: Map<Seq<char>, usize>,
}

/// Numbers are kept in a `BTreeMap` by their bits. Strings are kept in a
/// list of distinct texts: the map specification that vstd gives holds for
/// keys whose order it models, and `String` is not one of them.
pub struct Interner {
    numbers: SyncUnsafeCell<BTreeMap<u64, usize>>,
    strings: SyncUnsafeCell<Vec<(String, usize)>>,
}

impl View for Interner {
    type V = InternView;

    closed spec fn view(&self) -> InternView {
        InternView { numbers: self.numbers@@, strings: table_view(self.strings@@) }
    }
}

/// One request for a number's handle: a remembered number gives its handle
/// and nothing changes; a new one gets what the host returned for it, which
/// is then remembered.
pub open spec fn number_step<F: Fn(u64) -> usize>(
    before: InternView,
    after: InternView,
    bits: u64,
    r: usize,
    put: F,
) -> bool {
    if before.numbers.contains_key(bits) {
        r == before.numbers[bits] && after == before
    } else {
        &&& put.ensures((bits,), r)
        &&& after == InternView { numbers: before.numbers.insert(bits, r), ..before }
    }
}

/// One request for a string's handle; a new string is sent to the host as
/// its UTF-16 code units.
pub open spec fn string_step<G: Fn(Vec<u16>) -> usize>(
    before: InternView,
    after: InternView,
    s: Seq<char>,
    r: usize,
    put: G,
) -> bool {
    if before.strings.contains_key(s) {
        r == before.strings[s] && after == before
    } else {
        &&& exists|u: Vec<u16>| u@ == utf16_encode(s) && put.ensures((u,), r)
        &&& after == InternView { strings: before.strings.insert(s, r), ..before }
    }
}

/// The handle that stands for a value, and what the tables became.
pub open spec fn value_step<F: Fn(u64) -> usize, G: Fn(Vec<u16>) -> usize>(
    before: InternView,
    after: InternView,
    v: ValueView,
    r: usize,
    put_number: F,
    put_string: G,
) -> bool {
    match v {
        ValueView::Null => r == NULL_ID && after == before,
        ValueView::Undefined => r == UNDEFINED_ID && after == before,
        ValueView::Boolean(b) => r == bool_handle(b) && after == before,
        ValueView::Number(bits) => number_step(before, after, bits, r, put_number),
        ValueView::String(s) => string_step(before, after, s, r, put_string),
        ValueView::Symbol(sym) => r == sym.id && after == before,
        ValueView::Object(o) => r == object_view_handle(o) && after == before,
    }
}

/// The handles of a run of values, asked for one after the other.
pub open spec fn values_step<F: Fn(u64) -> usize, G: Fn(Vec<u16>) -> usize>(
    before: InternView,
    after: InternView,
    vs: Seq<ValueView>,
    ids: Seq<usize>,
    put_number: F,
    put_string: G,
) -> bool
    decreases vs.len(),
{
    if vs.len() == 0 {
        ids.len() == 0 && after == before
    } else {
        &&& ids.len() == vs.len()
        &&& exists|mid: InternView|
            values_step(before, mid, vs.drop_last(), ids.drop_last(), put_number, put_string)
                && value_step(mid, after, vs.last(), ids.last(), put_number, put_string)
    }
}

/// The handle of a property key.
pub open spec fn key_step<G: Fn(Vec<u16>) -> usize>(
    before: InternView,
    after: InternView,
    k: KeyView,
    r: usize,
    put_string: G,
) -> bool {
    match k {
        KeyView::String(s) => string_step(before, after, s, r, put_string),
        KeyView::Symbol(sym) => r == sym.id && after == before,
    }
}

/// The views of the values behind a slice of references.
pub open spec fn views_of(args: Seq<&Value>) -> Seq<ValueView> {
    Seq::new(args.len(), |i: int| args[i]@)
}

impl Interner {
    /// No text is remembered twice.
    pub closed spec fn wf(&self) -> bool {
        distinct_texts(self.strings@@)
    }

    /// Nothing remembered yet.
    pub fn new() -> (t: Interner)
        ensures
            t.wf(),
            t@.numbers == Map::<u64, usize>::empty(),
            t@.strings == Map::<Seq<char>, usize>::empty(),
    {
        let t = Interner {
            numbers: SyncUnsafeCell::new(BTreeMap::new()),
            strings: SyncUnsafeCell::new(Vec::new()),
        };
        assert(t@.strings =~= Map::<Seq<char>, usize>::empty());
        t
    }

    /// The handle remembered for the number with these bits.
    pub fn known_number(&self, bits: u64) -> (r: Option<usize>)
        ensures
            r == (if self@.numbers.contains_key(bits) {
                Some(self@.numbers[bits])
            } else {
                None::<usize>
            }),
    {
        match self.numbers.get().get(&bits) {
            Some(id) => Some(*id),
            None => None,
        }
    }

    /// The handle remembered for the text `s`.
    pub fn known_string(&self, s: &str) -> (r: Option<usize>)
        requires
            self.wf(),
        ensures
            r == (if self@.strings.contains_key(s@) {
                Some(self@.strings[s@])
            } else {
                None::<usize>
            }),
    {
        let key = String::from_str(s);
        let table = self.strings.get();
        let mut i: usize = 0;
        while i < table.len()
            invariant
                i <= table@.len(),
                key@ == s@,
                *table == self.strings@,
                distinct_texts(table@),
                forall|j: int| 0 <= j < i ==> #[trigger] table@[j].0@ != s@,
            decreases table@.len() - i,
        {
            if table[i].0 == key {
                proof {
                    lemma_table_value(table@, i as int);
                }
                return Some(table[i].1);
            }
            i = i + 1;
        }
        proof {
            lemma_table_keys(table@, s@);
        }
        None
    }

    /// The handle of a number, by its bits; the first time a number is asked
    /// for, `put` makes it on the host.
    pub fn number_id<F: Fn(u64) -> usize>(&mut self, bits: u64, put: &F) -> (r: usize)
        requires
            old(self).wf(),
            forall|b: u64| put.requires((b,)),
        ensures
            final(self).wf(),
            number_step(old(self)@, final(self)@, bits, r, *put),
    {
        match self.known_number(bits) {
            Some(id) => id,
            None => {
                let id = put(bits);
                self.numbers.get_mut().insert(bits, id);
                id
            },
        }
    }

    /// The handle of a string; the first time a text is asked for, `put`
    /// makes it on the host from its UTF-16 code units.
    pub fn string_id<G: Fn(Vec<u16>) -> usize>(&mut self, s: &str, put: &G) -> (r: usize)
        requires
            old(self).wf(),
            forall|u: Vec<u16>| put.requires((u,)),
        ensures
            final(self).wf(),
            string_step(old(self)@, final(self)@, s@, r, *put),
    {
        match self.known_string(s) {
            Some(id) => id,
            None => {
                let units = encode_utf16(s);
                let ghost sent = units;
                let id = put(units);
                let key = String::from_str(s);
                let ghost before = self.strings@@;
                proof {
                    lemma_table_keys(before, s@);
                    assert forall|i: int, j: int|
                        0 <= i < before.push((key, id)).len() && 0 <= j < before.push((key, id)).len()
                            && i != j implies before.push((key, id))[i].0@ != before.push(
                        (key, id),
                    )[j].0@ by {
                        if i < before.len() && j < before.len() {
                        } else if i < before.len() {
                            assert(before[i].0@ != s@);
                        } else {
                            assert(before[j].0@ != s@);
                        }
                    }
                    assert(before.push((key, id)).drop_last() =~= before);
                }
                self.strings.get_mut().push((key, id));
                assert(put.ensures((sent,), id));
                id
            },
        }
    }
}

/// The handle of a string name, such as a property name.
pub fn id_from_str<G: Fn(Vec<u16>) -> usize>(interner: &mut Interner, s: &str, put_string: &G) -> (r:
    usize)
    requires
        old(interner).wf(),
        forall|u: Vec<u16>| put_string.requires((u,)),
    ensures
        final(interner).wf(),
        string_step(old(interner)@, final(interner)@, s@, r, *put_string),
{
    interner.string_id(s, put_string)
}

/// The handle of a property key: a string's interned handle, or the symbol's.
pub fn id_from_object_key<G: Fn(Vec<u16>) -> usize>(
    interner: &mut Interner,
    k: &ObjectKey,
    put_string: &G,
) -> (r: usize)
    requires
        old(interner).wf(),
        forall|u: Vec<u16>| put_string.requires((u,)),
    ensures
        final(interner).wf(),
        key_step(old(interner)@, final(interner)@, k@, r, *put_string),
{
    match k {
        ObjectKey::String(s) => interner.string_id(s.as_str(), put_string),
        ObjectKey::Symbol(symbol) => symbol.id(),
    }
}

/// The handle that stands for a value on the host.
pub fn id_from_value<F: Fn(u64) -> usize, G: Fn(Vec<u16>) -> usize>(
    interner: &mut Interner,
    v: &Value,
    put_number: &F,
    put_string: &G,
) -> (r: usize)
    requires
        old(interner).wf(),
        forall|b: u64| put_number.requires((b,)),
        forall|u: Vec<u16>| put_string.requires((u,)),
    ensures
        final(interner).wf(),
        value_step(old(interner)@, final(interner)@, v@, r, *put_number, *put_string),
{
    match v {
        Value::Null => NULL_ID,
        Value::Undefined => UNDEFINED_ID,
        Value::Boolean(b) => id_from_bool(*b),
        Value::Number(bits) => interner.number_id(*bits, put_number),
        Value::String(s) => interner.string_id(s.as_str(), put_string),
        Value::Symbol(symbol) => symbol.id(),
        Value::Object(object) => object.id(),
    }
}

/// The handles of several values, in order.
pub fn ids_from_values<F: Fn(u64) -> usize, G: Fn(Vec<u16>) -> usize>(
    interner: &mut Interner,
    values: &[&Value],
    put_number: &F,
    put_string: &G,
) -> (ids: Vec<usize>)
    requires
        old(interner).wf(),
        forall|b: u64| put_number.requires((b,)),
        forall|u: Vec<u16>| put_string.requires((u,)),
    ensures
        final(interner).wf(),
        values_step(
            old(interner)@,
            final(interner)@,
            views_of(values@),
            ids@,
            *put_number,
            *put_string,
        ),
{
    let mut ids: Vec<usize> = Vec::new();
    let mut i: usize = 0;
    let ghost start = interner@;
    assert(views_of(values@).take(0) =~= Seq::<ValueView>::empty());
    while i < values.len()
        invariant
            i <= values@.len(),
            interner.wf(),
            forall|b: u64| put_number.requires((b,)),
            forall|u: Vec<u16>| put_string.requires((u,)),
            values_step(
                start,
                interner@,
                views_of(values@).take(i as int),
                ids@,
                *put_number,
                *put_string,
            ),
        decreases values@.len() - i,
    {
        let ghost mid = interner@;
        let ghost prev = ids@;
        let id = id_from_value(interner, values[i], put_number, put_string);
        ids.push(id);
        proof {
            let vs = views_of(values@).take(i + 1);
            assert(vs.drop_last() =~= views_of(values@).take(i as int));
            assert(ids@.drop_last() =~= prev);
            assert(vs.last() == values@[i as int]@);
            assert(ids@.last() == id);
            assert(values_step(start, mid, vs.drop_last(), ids@.drop_last(), *put_number, *put_string));
            assert(value_step(mid, interner@, vs.last(), ids@.last(), *put_number, *put_string));
        }
        i = i + 1;
    }
    assert(views_of(values@).take(values@.len() as int) =~= views_of(values@));
    ids
}

/// Every entry that the tables held before a request is still there, with
/// the same handle, after it.
pub open spec fn keeps_entries(before: InternView, after: InternView) -> bool {
    &&& forall|b: u64| #[trigger]
        before.numbers.contains_key(b) ==> after.numbers.contains_key(b) && after.numbers[b]
            == before.numbers[b]
    &&& forall|t: Seq<char>| #[trigger]
        before.strings.contains_key(t) ==> after.strings.contains_key(t) && after.strings[t]
            == before.strings[t]
}

/// Asking twice for the handle of the same value gives the same handle, and
/// the second request leaves the tables as they were: the host makes each
/// number and each string once.
pub proof fn lemma_value_handle_stable<F: Fn(u64) -> usize, G: Fn(Vec<u16>) -> usize>(
    v0: InternView,
    v1: InternView,
    v2: InternView,
    v: ValueView,
    r1: usize,
    r2: usize,
    put_number: F,
    put_string: G,
)
    requires
        value_step(v0, v1, v, r1, put_number, put_string),
        value_step(v1, v2, v, r2, put_number, put_string),
    ensures
        r2 == r1,
        v2 == v1,
{
}

/// Asking for the handle of a value never forgets nor changes a handle that
/// was remembered before.
pub proof fn lemma_value_step_keeps_entries<F: Fn(u64) -> usize, G: Fn(Vec<u16>) -> usize>(
    before: InternView,
    after: InternView,
    v: ValueView,
    r: usize,
    put_number: F,
    put_string: G,
)
    requires
        value_step(before, after, v, r, put_number, put_string),
    ensures
        keeps_entries(before, after),
{
}

/// Asking for the handles of several values in turn keeps every entry that
/// was remembered before.
pub proof fn lemma_values_step_keeps_entries<F: Fn(u64) -> usize, G: Fn(Vec<u16>) -> usize>(
    before: InternView,
    after: InternView,
    vs: Seq<ValueView>,
    ids: Seq<usize>,
    put_number: F,
    put_string: G,
)
    requires
        values_step(before, after, vs, ids, put_number, put_string),
    ensures
        keeps_entries(before, after),
    decreases vs.len(),
{
    if vs.len() > 0 {
        let mid = choose|mid: InternView|
            values_step(before, mid, vs.drop_last(), ids.drop_last(), put_number, put_string)
                && value_step(mid, after, vs.last(), ids.last(), put_number, put_string);
        lemma_values_step_keeps_entries(before, mid, vs.drop_last(), ids.drop_last(), put_number, put_string);
        lemma_value_step_keeps_entries(mid, after, vs.last(), ids.last(), put_number, put_string);
    }
}

/// After a value's handle has been asked for, the tables hold it: a number
/// or a string is remembered with the handle that was returned.
pub proof fn lemma_value_step_remembers<F: Fn(u64) -> usize, G: Fn(Vec<u16>) -> usize>(
    before: InternView,
    after: InternView,
    v: ValueView,
    r: usize,
    put_number: F,
    put_string: G,
)
    requires
        value_step(before, after, v, r, put_number, put_string),
    ensures
        v matches ValueView::Number(b) ==> after.numbers.contains_key(b) && after.numbers[b] == r,
        v matches ValueView::String(t) ==> after.strings.contains_key(t) && after.strings[t] == r,
{
}

/// A host constructor for numbers that gives one handle for each number.
pub open spec fn one_handle_per_number<F: Fn(u64) -> usize>(put: F) -> bool {
    forall|b: u64, r1: usize, r2: usize|
        #![trigger put.ensures((b,), r1), put.ensures((b,), r2)]
        put.ensures((b,), r1) && put.ensures((b,), r2) ==> r1 == r2
}

/// A host constructor for strings that gives one handle for each run of
/// code units.
pub open spec fn one_handle_per_text<G: Fn(Vec<u16>) -> usize>(put: G) -> bool {
    forall|u1: Vec<u16>, u2: Vec<u16>, r1: usize, r2: usize|
        #![trigger put.ensures((u1,), r1), put.ensures((u2,), r2)]
        u1@ == u2@ && put.ensures((u1,), r1) && put.ensures((u2,), r2) ==> r1 == r2
}

/// With host constructors that give one handle per number and per text, the
/// handle of a value and the tables after asking for it depend on the value
/// and the tables before alone.
pub proof fn lemma_value_step_determined<F: Fn(u64) -> usize, G: Fn(Vec<u16>) -> usize>(
    before: InternView,
    after1: InternView,
    after2: InternView,
    v: ValueView,
    r1: usize,
    r2: usize,
    put_number: F,
    put_string: G,
)
    requires
        one_handle_per_number(put_number),
        one_handle_per_text(put_string),
        value_step(before, after1, v, r1, put_number, put_string),
        value_step(before, after2, v, r2, put_number, put_string),
    ensures
        r1 == r2,
        after1 == after2,
{
    if let ValueView::String(t) = v {
        if !before.strings.contains_key(t) {
            let u1 = choose|u: Vec<u16>| u@ == utf16_encode(t) && put_string.ensures((u,), r1);
            let u2 = choose|u: Vec<u16>| u@ == utf16_encode(t) && put_string.ensures((u,), r2);
            assert(put_string.ensures((u1,), r1) && put_string.ensures((u2,), r2));
        }
    }
}

/// The same for the handles of a run of values.
pub proof fn lemma_values_step_determined<F: Fn(u64) -> usize, G: Fn(Vec<u16>) -> usize>(
    before: InternView,
    after1: InternView,
    after2: InternView,
    vs: Seq<ValueView>,
    ids1: Seq<usize>,
    ids2: Seq<usize>,
    put_number: F,
    put_string: G,
)
    requires
        one_handle_per_number(put_number),
        one_handle_per_text(put_string),
        values_step(before, after1, vs, ids1, put_number, put_string),
        values_step(before, after2, vs, ids2, put_number, put_string),
    ensures
        ids1 == ids2,
        after1 == after2,
    decreases vs.len(),
{
    if vs.len() > 0 {
        let mid1 = choose|mid: InternView|
            values_step(before, mid, vs.drop_last(), ids1.drop_last(), put_number, put_string)
                && value_step(mid, after1, vs.last(), ids1.last(), put_number, put_string);
        let mid2 = choose|mid: InternView|
            values_step(before, mid, vs.drop_last(), ids2.drop_last(), put_number, put_string)
                && value_step(mid, after2, vs.last(), ids2.last(), put_number, put_string);
        lemma_values_step_determined(
            before,
            mid1,
            mid2,
            vs.drop_last(),
            ids1.drop_last(),
            ids2.drop_last(),
            put_number,
            put_string,
        );
        lemma_value_step_determined(
            mid1,
            after1,
            after2,
            vs.last(),
            ids1.last(),
            ids2.last(),
            put_number,
            put_string,
        );
        assert(ids1 =~= ids1.drop_last().push(ids1.last()));
        assert(ids2 =~= ids2.drop_last().push(ids2.last()));
    }
}

} // verus!
