//! The cursor over the tokens of one command line.

use vstd::prelude::*;

verus! {

/// The values of a list of strings, in the list's order.
pub open spec fn texts(items: Seq<String>) -> Seq<Seq<char>> {
    Seq::new(items.len(), |i: int| items[i]@)
}

/// The tokens of a command line, read from left to right, one at a time.
///
/// The value of a cursor (`@`) is the sequence of tokens that it has not
/// handed out yet; `spent` counts those that it has.
pub struct Tokens {
    items: Vec<String>,
    at: usize,
}

impl View for Tokens {
    type V = Seq<Seq<char>>;

    closed spec fn view(&self) -> Seq<Seq<char>> {
        texts(self.items@).skip(self.at as int)
    }
}

impl Tokens {
    #[verifier::type_invariant]
    spec fn in_bounds(self) -> bool {
        self.at <= self.items@.len()
    }

    /// How many tokens the cursor has handed out.
    pub closed spec fn spent(&self) -> nat {
        self.at as nat
    }

    /// A cursor in front of the first of `items`.
    pub fn new(items: Vec<String>) -> (tokens: Self)
        ensures
            tokens@ == texts(items@),
            tokens.spent() == 0,
    {
        Tokens { items, at: 0 }
    }

    /// The number of tokens that are left.
    pub fn len(&self) -> (count: usize)
        ensures
            count == self@.len(),
    {
        proof {
            use_type_invariant(self);
        }
        self.items.len() - self.at
    }

    /// Whether no token is left.
    pub fn is_empty(&self) -> (empty: bool)
        ensures
            empty == (self@.len() == 0),
    {
        self.len() == 0
    }

    /// The number of tokens handed out so far.
    pub fn consumed(&self) -> (count: usize)
        ensures
            count == self.spent(),
    {
        self.at
    }

    /// The next token, which stays in place.
    pub fn peek(&self) -> (token: Option<&str>)
        ensures
            match token {
                Some(text) => self@.len() > 0 && text@ == self@[0],
                None => self@.len() == 0,
            },
    {
        proof {
            use_type_invariant(self);
        }
        if self.at < self.items.len() {
            Some(self.items[self.at].as_str())
        } else {
            None
        }
    }

    /// Hands out the next token and moves past it; `None`, and no move, at
    /// the end.
    pub fn next(&mut self) -> (token: Option<String>)
        ensures
            match token {
                Some(text) => {
                    &&& old(self)@.len() > 0
                    &&& text@ == old(self)@[0]
                    &&& final(self)@ == old(self)@.skip(1)
                    &&& final(self).spent() == old(self).spent() + 1
                },
                None => {
                    &&& old(self)@.len() == 0
                    &&& final(self)@ == old(self)@
                    &&& final(self).spent() == old(self).spent()
                },
            },
    {
        proof {
            use_type_invariant(&*self);
        }
        if self.at < self.items.len() {
            let text = self.items[self.at].clone();
            self.at = self.at + 1;
            Some(text)
        } else {
            None
        }
    }
}

} // verus!
