use vstd::prelude::*;

verus! {

/// An error carrying a chain of context messages: the root cause first,
/// each enclosing operation's description appended after it. A caller at
/// the top of the stack can reconstruct the full causal chain from the
/// messages alone.
#[derive(Debug)]
pub struct Error {
    pub chain: Vec<String>,
}

impl Error {
    /// The mathematical model of an error: the sequence of its context
    /// messages, root cause first.
    pub open spec fn view(&self) -> Seq<Seq<char>> {
        self.chain.deep_view()
    }

    /// A fresh error with a single root-cause message.
    pub fn msg(m: &str) -> (r: Error)
        ensures
            r@ == seq![m@],
    {
        let mut chain: Vec<String> = Vec::new();
        chain.push(m.to_owned());
        let r = Error { chain };
        proof {
            assert(r@ =~= seq![m@]);
        }
        r
    }

    /// Wraps the error in one more layer of context.
    pub fn context(self, m: &str) -> (r: Error)
        ensures
            r@ == self@.push(m@),
    {
        let ghost orig = self@;
        let mut chain = self.chain;
        chain.push(m.to_owned());
        let r = Error { chain };
        proof {
            assert(r@ =~= orig.push(m@));
        }
        r
    }
}

/// A pending context message: its `e` method runs a fallible closure and, on
/// failure, wraps the closure's error in this message.
pub struct ErrCtx(pub String);

impl ErrCtx {
    /// Runs `f`; an `Ok` passes through unchanged, an `Err` gains this
    /// context message as its outermost layer.
    pub fn e<R, F: FnOnce() -> Result<R, Error>>(self, f: F) -> (r: Result<R, Error>)
        requires
            call_requires(f, ()),
        ensures
            r matches Ok(v) ==> call_ensures(f, (), Ok(v)),
            r matches Err(err) ==> exists|e0: Error|
                call_ensures(f, (), Err(e0)) && err@ == e0@.push(self.0@),
    {
        match f() {
            Ok(v) => Ok(v),
            Err(e0) => {
                let ghost w = e0;
                let err = e0.context(self.0.as_str());
                proof {
                    assert(call_ensures(f, (), Err::<R, Error>(w)) && err@ == w@.push(self.0@));
                }
                Err(err)
            },
        }
    }
}

} // verus!
