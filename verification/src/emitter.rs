//! The emission façade: it formats and forwards tag, log and
//! span-boundary events, consulting the span stack for context, and it
//! owns the policy for deriving tags from structured input.

use vstd::prelude::*;
use vstd::slice::slice_to_vec;
use vstd::string::StringExecFns;

use crate::event::Event;
use crate::event::EventV;
use crate::event::LogLevel;
use crate::record::ProductRecord;
use crate::record::dec_of;
use crate::record::read_record;
use crate::record::record_of_text;
use crate::record::u64_to_dec;
use crate::span_stack::SpanId;
use crate::span_stack::SpanStack;
use crate::span_stack::UsageError;

verus! {

/// The numeric tag text `price:<n>`.
pub open spec fn price_tag(p: u64) -> Seq<char> {
    "price:"@ + dec_of(p as nat)
}

/// The numeric tag text `discountPercentage:<t>`.
pub open spec fn discount_tag(t: Seq<char>) -> Seq<char> {
    "discountPercentage:"@ + t
}

/// The sentinel tag marking a record whose classification field does not
/// equal the expected constant (a parse failure triggers it too, since a
/// defaulted brand is empty).
pub open spec fn sentinel_tag() -> Seq<char> {
    "brand:unknown"@
}

/// The expected value of the record's classification field; any other
/// value makes the sentinel tag appear.
pub open spec fn expected_brand() -> Seq<char> {
    "Apple"@
}

/// The tag notifications that deriving from the text `s` emits: one
/// carrying the sentinel tag when the record's brand is not the expected
/// constant, then always one carrying the two numeric tags.
pub open spec fn derived_tag_events(s: Seq<char>) -> Seq<EventV> {
    let r = record_of_text(s);
    let numeric = EventV::Tags(seq![price_tag(r.price), discount_tag(r.discount_text)]);
    if r.brand == expected_brand() {
        seq![numeric]
    } else {
        seq![EventV::Tags(seq![sentinel_tag()]), numeric]
    }
}

/// The emission context of one guest invocation: the stack of open spans
/// and the ordered notifications already issued to the host boundary.
/// One instance per invocation; it is never shared.
pub struct Emitter {
    stack: SpanStack,
    events: Vec<Event>,
}

impl Emitter {
    /// The names of the open spans, outermost first.
    pub closed spec fn stack_v(&self) -> Seq<Seq<char>> {
        self.stack@
    }

    /// The notifications issued so far, oldest first.
    pub closed spec fn events_v(&self) -> Seq<EventV> {
        self.events@.map_values(|e: Event| e@)
    }

    /// A fresh context for a new invocation: no open span, nothing sent.
    pub fn new() -> (r: Emitter)
        ensures
            r.stack_v() == Seq::<Seq<char>>::empty(),
            r.events_v() == Seq::<EventV>::empty(),
    {
        let r = Emitter { stack: SpanStack::new(), events: Vec::new() };
        proof {
            assert(r.events_v() =~= Seq::<EventV>::empty());
        }
        r
    }

    /// Read access to the notifications issued so far, in order.
    pub fn events(&self) -> (r: &Vec<Event>)
        ensures
            r@.map_values(|e: Event| e@) == self.events_v(),
    {
        &self.events
    }

    /// The stack of open spans.
    pub fn span_stack(&self) -> (r: &SpanStack)
        ensures
            r@ == self.stack_v(),
    {
        &self.stack
    }

    /// The name of the current span: the most recently entered, not yet
    /// exited one. `None` when no span is open; tag and log calls are
    /// still legal then and associate with the invocation as a whole.
    pub fn current(&self) -> (r: Option<&String>)
        ensures
            match r {
                Some(s) => self.stack_v().len() > 0 && s@ == self.stack_v().last(),
                None => self.stack_v().len() == 0,
            },
    {
        self.stack.current()
    }

    /// Opens a span and notifies the host. An empty name is a fatal
    /// usage error: nothing changes, nothing is sent, and the caller
    /// must abort the invocation.
    pub fn enter(&mut self, name: String) -> (r: Result<SpanId, UsageError>)
        ensures
            name@.len() == 0 ==> {
                &&& r == Err::<SpanId, UsageError>(UsageError::EmptyName)
                &&& final(self).stack_v() == old(self).stack_v()
                &&& final(self).events_v() == old(self).events_v()
            },
            name@.len() > 0 ==> {
                &&& r == Ok::<SpanId, UsageError>(
                    (SpanId { depth: old(self).stack_v().len() as usize }),
                )
                &&& final(self).stack_v() == old(self).stack_v().push(name@)
                &&& final(self).events_v() == old(self).events_v().push(
                    EventV::SpanEnter(name@),
                )
            },
    {
        let ghost name_view = name@;
        let ghost events0 = self.events_v();
        let event_name = name.clone();
        match self.stack.enter(name) {
            Ok(id) => {
                self.events.push(Event::SpanEnter(event_name));
                proof {
                    assert(self.events_v() =~= events0.push(EventV::SpanEnter(name_view)));
                }
                Ok(id)
            },
            Err(e) => Err(e),
        }
    }

    /// Closes the current span and notifies the host; the span below
    /// becomes current again. Exiting with no span open is a fatal usage
    /// error: nothing changes, nothing is sent, and the caller must
    /// abort the invocation.
    pub fn exit(&mut self) -> (r: Result<(), UsageError>)
        ensures
            old(self).stack_v().len() == 0 ==> {
                &&& r == Err::<(), UsageError>(UsageError::ExitOnEmpty)
                &&& final(self).stack_v() == old(self).stack_v()
                &&& final(self).events_v() == old(self).events_v()
            },
            old(self).stack_v().len() > 0 ==> {
                &&& r == Ok::<(), UsageError>(())
                &&& final(self).stack_v() == old(self).stack_v().drop_last()
                &&& final(self).events_v() == old(self).events_v().push(EventV::SpanExit)
            },
    {
        let ghost events0 = self.events_v();
        match self.stack.exit() {
            Ok(()) => {
                self.events.push(Event::SpanExit);
                proof {
                    assert(self.events_v() =~= events0.push(EventV::SpanExit));
                }
                Ok(())
            },
            Err(e) => Err(e),
        }
    }

    /// Forwards a leveled log record verbatim. The message is opaque
    /// bytes. Cannot fail from the guest's point of view.
    pub fn log(&mut self, level: LogLevel, message: &[u8])
        ensures
            final(self).stack_v() == old(self).stack_v(),
            final(self).events_v() == old(self).events_v().push(EventV::Log(level, message@)),
    {
        let ghost events0 = self.events_v();
        let msg = slice_to_vec(message);
        self.events.push(Event::Log(level, msg));
        proof {
            assert(self.events_v() =~= events0.push(EventV::Log(level, message@)));
        }
    }

    /// Forwards an ordered list of `key:value` tag texts. The shape of
    /// each token is the caller's responsibility and is not validated.
    pub fn tag(&mut self, tags: Vec<String>)
        ensures
            final(self).stack_v() == old(self).stack_v(),
            final(self).events_v() == old(self).events_v().push(
                EventV::Tags(tags@.map_values(|t: String| t@)),
            ),
    {
        let ghost events0 = self.events_v();
        let ghost tags_view = tags@.map_values(|t: String| t@);
        self.events.push(Event::Tags(tags));
        proof {
            assert(self.events_v() =~= events0.push(EventV::Tags(tags_view)));
        }
    }

    /// Reads the structured record out of `raw`, defaulting every field
    /// that cannot be read, emits the sentinel tag when the brand is not
    /// the expected constant, then always emits the two numeric tags,
    /// and returns the record for ordinary application use. Never fails,
    /// whatever the text holds: a malformed input yields the defaults,
    /// observable through the sentinel tag rather than through an error.
    pub fn derive_tags_from_record(&mut self, raw: &str) -> (r: ProductRecord)
        ensures
            r@ == record_of_text(raw@),
            final(self).stack_v() == old(self).stack_v(),
            final(self).events_v() == old(self).events_v() + derived_tag_events(raw@),
    {
        let ghost events0 = self.events_v();
        let record = read_record(raw);
        let expected = "Apple".to_owned();
        if !(record.brand == expected) {
            self.tag(vec!["brand:unknown".to_owned()]);
            proof {
                assert(self.events_v() =~~= events0 + seq![
                    EventV::Tags(seq![sentinel_tag()]),
                ]);
            }
        }
        let mut price_text = "price:".to_owned();
        let price_dec = u64_to_dec(record.price);
        price_text.append(price_dec.as_str());
        let mut discount_text = "discountPercentage:".to_owned();
        discount_text.append(record.discount_text.as_str());
        self.tag(vec![price_text, discount_text]);
        proof {
            assert(self.events_v() =~~= events0 + derived_tag_events(raw@));
        }
        record
    }
}

} // verus!
