//! Strict LIFO tracking of open spans within one guest invocation.

use vstd::prelude::*;

verus! {

/// Identifier handed back by `enter`, for symmetry and debugging only.
/// Holds the depth at which the span was opened (0 for the outermost).
/// Exiting always targets the top of the stack; callers never need to
/// pass the identifier back.
#[derive(Clone, Copy, Debug, PartialEq, Eq, Structural)]
pub struct SpanId {
    pub depth: usize,
}

/// A misuse of the span API by the instrumented application. Such an
/// error is fatal by contract: the caller must abort the invocation
/// loudly rather than continue, so misuse is caught during development.
#[derive(Clone, Copy, Debug, PartialEq, Eq, Structural)]
pub enum UsageError {
    /// `enter` was called with an empty span name.
    EmptyName,
    /// `exit` was called while no span was open.
    ExitOnEmpty,
}

/// The ordered names of the currently open spans, outermost first.
/// Scoped to a single guest invocation: created empty, mutated only by
/// `enter` and `exit`, and expected to be empty again when the
/// invocation ends.
pub struct SpanStack {
    names: Vec<String>,
}

impl View for SpanStack {
    type V = Seq<Seq<char>>;

    closed spec fn view(&self) -> Seq<Seq<char>> {
        self.names@.map_values(|s: String| s@)
    }
}

impl SpanStack {
    /// A fresh, empty stack for a new invocation.
    pub fn new() -> (r: SpanStack)
        ensures
            r@ == Seq::<Seq<char>>::empty(),
    {
        SpanStack { names: Vec::new() }
    }

    /// How many spans are currently open.
    pub fn depth(&self) -> (n: usize)
        ensures
            n == self@.len(),
    {
        self.names.len()
    }

    /// Whether no span is open.
    pub fn is_empty(&self) -> (r: bool)
        ensures
            r == (self@.len() == 0),
    {
        self.names.len() == 0
    }

    /// The name of the current (innermost open) span, if any.
    pub fn current(&self) -> (r: Option<&String>)
        ensures
            match r {
                Some(s) => self@.len() > 0 && s@ == self@.last(),
                None => self@.len() == 0,
            },
    {
        if self.names.len() == 0 {
            None
        } else {
            Some(&self.names[self.names.len() - 1])
        }
    }

    /// Opens a new span and makes it current. An empty name is a fatal
    /// usage error: the stack is left unchanged and the caller must abort.
    pub fn enter(&mut self, name: String) -> (r: Result<SpanId, UsageError>)
        ensures
            name@.len() == 0 ==> {
                &&& r == Err::<SpanId, UsageError>(UsageError::EmptyName)
                &&& final(self)@ == old(self)@
            },
            name@.len() > 0 ==> {
                &&& r == Ok::<SpanId, UsageError>((SpanId { depth: old(self)@.len() as usize }))
                &&& final(self)@ == old(self)@.push(name@)
            },
    {
        if name.as_str().is_empty() {
            Err(UsageError::EmptyName)
        } else {
            let ghost name_view = name@;
            let depth = self.names.len();
            self.names.push(name);
            proof {
                assert(self@ =~= old(self)@.push(name_view));
            }
            Ok(SpanId { depth })
        }
    }

    /// Closes the current span; the one below becomes current again.
    /// Exiting with no span open is a fatal usage error: the stack is
    /// left unchanged and the caller must abort.
    pub fn exit(&mut self) -> (r: Result<(), UsageError>)
        ensures
            old(self)@.len() == 0 ==> {
                &&& r == Err::<(), UsageError>(UsageError::ExitOnEmpty)
                &&& final(self)@ == old(self)@
            },
            old(self)@.len() > 0 ==> {
                &&& r == Ok::<(), UsageError>(())
                &&& final(self)@ == old(self)@.drop_last()
            },
    {
        if self.names.len() == 0 {
            Err(UsageError::ExitOnEmpty)
        } else {
            let _ = self.names.pop();
            proof {
                assert(self@ =~= old(self)@.drop_last());
            }
            Ok(())
        }
    }
}

} // verus!
