//! Library-wide laws, stated and proved over the same models that the
//! operations' contracts speak of.

use vstd::prelude::*;

use crate::emitter::derived_tag_events;
use crate::emitter::discount_tag;
use crate::emitter::expected_brand;
use crate::emitter::price_tag;
use crate::emitter::sentinel_tag;
use crate::event::EventV;
use crate::event::tags_of_events;
use crate::record::record_of_text;

verus! {

/// One span operation, as the stack model sees it.
pub enum SpanOp {
    /// `enter` with the given name.
    Enter(Seq<char>),
    /// `exit`.
    Exit,
}

/// Folds the contracts of `enter` and `exit` over a sequence of
/// operations, starting from the given stack: `enter` pushes its
/// (non-empty) name, `exit` pops the top of a non-empty stack. `None`
/// when some step is a fatal usage error.
pub open spec fn run_spans(st: Seq<Seq<char>>, ops: Seq<SpanOp>) -> Option<Seq<Seq<char>>>
    decreases ops.len(),
{
    if ops.len() == 0 {
        Some(st)
    } else {
        match ops[0] {
            SpanOp::Enter(n) => if n.len() > 0 {
                run_spans(st.push(n), ops.skip(1))
            } else {
                None
            },
            SpanOp::Exit => if st.len() > 0 {
                run_spans(st.drop_last(), ops.skip(1))
            } else {
                None
            },
        }
    }
}

/// How many `enter` operations the sequence holds.
pub open spec fn enters(ops: Seq<SpanOp>) -> int
    decreases ops.len(),
{
    if ops.len() == 0 {
        0
    } else {
        (if ops[0] is Enter {
            1int
        } else {
            0int
        }) + enters(ops.skip(1))
    }
}

/// How many `exit` operations the sequence holds.
pub open spec fn exits(ops: Seq<SpanOp>) -> int
    decreases ops.len(),
{
    if ops.len() == 0 {
        0
    } else {
        (if ops[0] is Exit {
            1int
        } else {
            0int
        }) + exits(ops.skip(1))
    }
}

/// Balanced: no prefix exits more spans than it entered, and the whole
/// sequence exits exactly as many as it entered.
pub open spec fn balanced(ops: Seq<SpanOp>) -> bool {
    &&& forall|i: int|
        0 <= i <= ops.len() ==> exits(#[trigger] ops.take(i)) <= enters(ops.take(i))
    &&& enters(ops) == exits(ops)
}

/// Every `enter` in the sequence carries a non-empty name.
pub open spec fn names_nonempty(ops: Seq<SpanOp>) -> bool {
    forall|i: int|
        0 <= i < ops.len() ==> (#[trigger] ops[i] matches SpanOp::Enter(n) ==> n.len() > 0)
}

proof fn lemma_counts_cons(ops: Seq<SpanOp>, i: int)
    requires
        ops.len() > 0,
        0 <= i <= ops.len() - 1,
    ensures
        enters(ops.take(i + 1)) == (if ops[0] is Enter {
            1int
        } else {
            0int
        }) + enters(ops.skip(1).take(i)),
        exits(ops.take(i + 1)) == (if ops[0] is Exit {
            1int
        } else {
            0int
        }) + exits(ops.skip(1).take(i)),
{
    assert(ops.take(i + 1).len() == i + 1);
    assert(ops.take(i + 1)[0] == ops[0]);
    assert(ops.take(i + 1).skip(1) =~= ops.skip(1).take(i));
}

proof fn lemma_run_spans_depth(st: Seq<Seq<char>>, ops: Seq<SpanOp>)
    requires
        names_nonempty(ops),
        forall|i: int|
            0 <= i <= ops.len() ==> exits(#[trigger] ops.take(i)) <= st.len() + enters(
                ops.take(i),
            ),
    ensures
        run_spans(st, ops) is Some,
        run_spans(st, ops)->Some_0.len() == st.len() + enters(ops) - exits(ops),
    decreases ops.len(),
{
    if ops.len() > 0 {
        let rest = ops.skip(1);
        assert forall|i: int|
            0 <= i < rest.len() implies (#[trigger] rest[i] matches SpanOp::Enter(n) ==> n.len()
            > 0) by {
            assert(rest[i] == ops[i + 1]);
            assert(ops[i + 1] matches SpanOp::Enter(n) ==> n.len() > 0);
        }
        match ops[0] {
            SpanOp::Enter(n) => {
                assert(ops[0] matches SpanOp::Enter(m) ==> m.len() > 0);
                let st2 = st.push(n);
                assert forall|i: int|
                    0 <= i <= rest.len() implies exits(#[trigger] rest.take(i)) <= st2.len()
                    + enters(rest.take(i)) by {
                    lemma_counts_cons(ops, i);
                    assert(exits(ops.take(i + 1)) <= st.len() + enters(ops.take(i + 1)));
                }
                lemma_run_spans_depth(st2, rest);
            },
            SpanOp::Exit => {
                assert(ops.take(1).len() == 1);
                assert(ops.take(1)[0] == ops[0]);
                assert(ops.take(1).skip(1) =~= Seq::<SpanOp>::empty());
                assert(exits(Seq::<SpanOp>::empty()) == 0);
                assert(enters(Seq::<SpanOp>::empty()) == 0);
                assert(exits(ops.take(1)) == 1);
                assert(enters(ops.take(1)) == 0);
                assert(exits(ops.take(1)) <= st.len() + enters(ops.take(1)));
                let st2 = st.drop_last();
                assert forall|i: int|
                    0 <= i <= rest.len() implies exits(#[trigger] rest.take(i)) <= st2.len()
                    + enters(rest.take(i)) by {
                    lemma_counts_cons(ops, i);
                    assert(exits(ops.take(i + 1)) <= st.len() + enters(ops.take(i + 1)));
                }
                lemma_run_spans_depth(st2, rest);
            },
        }
    }
}

/// Every balanced sequence of span operations whose names are all
/// non-empty runs from the empty stack without a fatal usage error and
/// returns the stack to empty.
pub proof fn lemma_balanced_ops_return_to_empty(ops: Seq<SpanOp>)
    requires
        balanced(ops),
        names_nonempty(ops),
    ensures
        run_spans(Seq::<Seq<char>>::empty(), ops) == Some(Seq::<Seq<char>>::empty()),
{
    lemma_run_spans_depth(Seq::<Seq<char>>::empty(), ops);
    assert(run_spans(Seq::<Seq<char>>::empty(), ops)->Some_0 =~= Seq::<Seq<char>>::empty());
}

/// Sentinel-tag law: deriving from a text whose record carries the
/// expected brand emits exactly the two numeric tags; for every other
/// brand (the defaulted record of an unreadable input included) the
/// sentinel tag is emitted too, ordered before the numeric tags.
pub proof fn lemma_sentinel_condition(s: Seq<char>)
    ensures
        record_of_text(s).brand == expected_brand() ==> tags_of_events(derived_tag_events(s))
            == seq![
            price_tag(record_of_text(s).price),
            discount_tag(record_of_text(s).discount_text),
        ],
        record_of_text(s).brand != expected_brand() ==> tags_of_events(derived_tag_events(s))
            == seq![
            sentinel_tag(),
            price_tag(record_of_text(s).price),
            discount_tag(record_of_text(s).discount_text),
        ],
{
    let r = record_of_text(s);
    let numeric_tags = seq![price_tag(r.price), discount_tag(r.discount_text)];
    let numeric = EventV::Tags(numeric_tags);
    assert(tags_of_events(Seq::<EventV>::empty()) == Seq::<Seq<char>>::empty());
    lemma_tags_of_events_cons(numeric, Seq::<EventV>::empty());
    assert(seq![numeric] =~= seq![numeric] + Seq::<EventV>::empty());
    assert(tags_of_events(seq![numeric]) == numeric_tags + Seq::<Seq<char>>::empty());
    if r.brand == expected_brand() {
        assert(derived_tag_events(s) == seq![numeric]);
        assert(numeric_tags + Seq::<Seq<char>>::empty() =~= numeric_tags);
    } else {
        let sentinel_ev = EventV::Tags(seq![sentinel_tag()]);
        let evs = seq![sentinel_ev, numeric];
        assert(derived_tag_events(s) == evs);
        assert(evs =~= seq![sentinel_ev] + seq![numeric]);
        lemma_tags_of_events_cons(sentinel_ev, seq![numeric]);
        assert(tags_of_events(evs) =~= seq![
            sentinel_tag(),
            price_tag(r.price),
            discount_tag(r.discount_text),
        ]);
    }
}

proof fn lemma_tags_of_events_cons(e: EventV, rest: Seq<EventV>)
    ensures
        tags_of_events(seq![e] + rest) == (match e {
            EventV::Tags(ts) => ts,
            _ => Seq::<Seq<char>>::empty(),
        }) + tags_of_events(rest),
{
    let evs = seq![e] + rest;
    assert(evs.len() == 1 + rest.len());
    assert(evs[0] == e);
    assert(evs.skip(1) =~= rest);
}

} // verus!
