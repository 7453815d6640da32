//! The argument arrays that calls and bindings hand to the host.
use vstd::prelude::*;
use crate::handles::{host_words, EMPTY_ARRAY_ID};
use crate::intern::{
    id_from_value, ids_from_values, lemma_values_step_determined, one_handle_per_number,
    one_handle_per_text, value_step, values_step, views_of, InternView, Interner,
};
use crate::value::ValueView;
use crate::value::Value;

verus! {

/// The 32-bit words that the host stores for a run of handles.
pub open spec fn words_of(ids: Seq<usize>) -> Seq<u32> {
    Seq::new(ids.len(), |i: int| ids[i] as u32)
}

/// The words of a host array that holds the values `vs`, in order, and what
/// the tables became on the way.
pub open spec fn array_step<F: Fn(u64) -> usize, G: Fn(Vec<u16>) -> usize>(
    before: InternView,
    after: InternView,
    vs: Seq<ValueView>,
    words: Seq<u32>,
    put_number: F,
    put_string: G,
) -> bool {
    exists|ids: Seq<usize>|
        values_step(before, after, vs, ids, put_number, put_string) && words == words_of(ids)
}

/// The words of a host array holding the given values: each value's handle,
/// in order, as collecting values into an `Array` hands them to the host.
pub fn array_words<F: Fn(u64) -> usize, G: Fn(Vec<u16>) -> usize>(
    interner: &mut Interner,
    values: &[&Value],
    put_number: &F,
    put_string: &G,
) -> (words: Vec<u32>)
    requires
        old(interner).wf(),
        forall|b: u64| put_number.requires((b,)),
        forall|u: Vec<u16>| put_string.requires((u,)),
    ensures
        final(interner).wf(),
        array_step(old(interner)@, final(interner)@, views_of(values@), words@, *put_number, *put_string),
{
    let ids = ids_from_values(interner, values, put_number, put_string);
    let words = host_words(&ids);
    assert(words@ =~= words_of(ids@));
    words
}

/// The host array that carries a call's arguments.
#[derive(Debug)]
pub enum ArgumentArray {
    /// An array that the host already holds, by its handle.
    Existing(usize),
    /// An array to build from these words.
    Fresh(Vec<u32>),
}

/// The array of arguments for a call: the host's empty array when there are
/// no arguments, else one built from the words of the arguments' handles, in
/// order.
pub fn call_arguments<F: Fn(u64) -> usize, G: Fn(Vec<u16>) -> usize>(
    interner: &mut Interner,
    args: &[&Value],
    put_number: &F,
    put_string: &G,
) -> (array: ArgumentArray)
    requires
        old(interner).wf(),
        forall|b: u64| put_number.requires((b,)),
        forall|u: Vec<u16>| put_string.requires((u,)),
    ensures
        final(interner).wf(),
        args@.len() == 0 ==> array == ArgumentArray::Existing(EMPTY_ARRAY_ID) && final(interner)@
            == old(interner)@,
        args@.len() > 0 ==> (array matches ArgumentArray::Fresh(w) && array_step(
            old(interner)@,
            final(interner)@,
            views_of(args@),
            w@,
            *put_number,
            *put_string,
        )),
{
    if args.len() == 0 {
        ArgumentArray::Existing(EMPTY_ARRAY_ID)
    } else {
        ArgumentArray::Fresh(array_words(interner, args, put_number, put_string))
    }
}

/// The array that binds a function: `this` first, then the arguments.
pub fn bind_arguments<F: Fn(u64) -> usize, G: Fn(Vec<u16>) -> usize>(
    interner: &mut Interner,
    this: &Value,
    args: &[&Value],
    put_number: &F,
    put_string: &G,
) -> (words: Vec<u32>)
    requires
        old(interner).wf(),
        forall|b: u64| put_number.requires((b,)),
        forall|u: Vec<u16>| put_string.requires((u,)),
    ensures
        final(interner).wf(),
        exists|mid: InternView, this_id: usize, ids: Seq<usize>|
            {
                &&& value_step(old(interner)@, mid, this@, this_id, *put_number, *put_string)
                &&& values_step(mid, final(interner)@, views_of(args@), ids, *put_number, *put_string)
                &&& words@ == words_of(seq![this_id] + ids)
            },
{
    let this_id = id_from_value(interner, this, put_number, put_string);
    let ghost mid = interner@;
    let rest = ids_from_values(interner, args, put_number, put_string);
    let mut ids: Vec<usize> = Vec::new();
    ids.push(this_id);
    let mut i: usize = 0;
    while i < rest.len()
        invariant
            i <= rest@.len(),
            ids@ == seq![this_id] + rest@.take(i as int),
        decreases rest@.len() - i,
    {
        ids.push(rest[i]);
        proof {
            assert(rest@.take(i + 1) =~= rest@.take(i as int).push(rest@[i as int]));
        }
        i = i + 1;
    }
    assert(rest@.take(rest@.len() as int) =~= rest@);
    let words = host_words(&ids);
    assert(words@ =~= words_of(seq![this_id] + rest@));
    words
}

/// A call with arguments hands the host the same array that collecting the
/// same arguments into an `Array` builds, the array that `apply` is given:
/// with host constructors that give one handle per number and per text, the
/// words and the tables after are the same.
pub proof fn lemma_call_array_is_collected_array<F: Fn(u64) -> usize, G: Fn(Vec<u16>) -> usize>(
    before: InternView,
    after_call: InternView,
    after_collect: InternView,
    args: Seq<ValueView>,
    call_words: Seq<u32>,
    collected_words: Seq<u32>,
    put_number: F,
    put_string: G,
)
    requires
        one_handle_per_number(put_number),
        one_handle_per_text(put_string),
        array_step(before, after_call, args, call_words, put_number, put_string),
        array_step(before, after_collect, args, collected_words, put_number, put_string),
    ensures
        call_words == collected_words,
        after_call == after_collect,
{
    let ids1 = choose|ids: Seq<usize>|
        values_step(before, after_call, args, ids, put_number, put_string) && call_words == words_of(
            ids,
        );
    let ids2 = choose|ids: Seq<usize>|
        values_step(before, after_collect, args, ids, put_number, put_string) && collected_words
            == words_of(ids);
    lemma_values_step_determined(
        before,
        after_call,
        after_collect,
        args,
        ids1,
        ids2,
        put_number,
        put_string,
    );
}

} // verus!
