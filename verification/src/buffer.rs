use vstd::prelude::*;
use vstd::std_specs::iter::IteratorSpec;
use vstd::string::StringExecFns;

use crate::status::Status;

verus! {

broadcast use vstd::string::axiom_spec_iter, vstd::string::next_postcondition;

/// Counts the characters of `s`, giving up once the count would pass `cap`.
fn char_len_capped(s: &str, cap: usize) -> (r: Option<usize>)
    ensures
        match r {
            Some(n) => n == s@.len() && n <= cap,
            None => s@.len() > cap,
        },
{
    let mut it = s.chars();
    let mut n: usize = 0;
    loop
        invariant
            it.obeys_prophetic_iter_laws(),
            it.decrease() is Some,
            n + it.remaining().len() == s@.len(),
            n <= cap,
        decreases it.decrease()->0,
    {
        match it.next() {
            Some(_) => {
                if n == cap {
                    return None;
                }
                n = n + 1;
            }
            None => {
                return Some(n);
            }
        }
    }
}

/// The scratch buffer one rendering call writes into: a growable string held
/// to a fixed capacity, one slot of which stays reserved for the terminator a
/// raw engine buffer would carry.
pub struct OutputBuffer {
    data: String,
    used: usize,
    capacity: usize,
}

impl OutputBuffer {
    #[verifier::type_invariant]
    spec fn inv(self) -> bool {
        self.used == self.data@.len() && self.used <= self.capacity
    }

    /// The characters written so far.
    pub closed spec fn text(self) -> Seq<char> {
        self.data@
    }

    /// The declared capacity, terminator slot included.
    pub closed spec fn cap(self) -> nat {
        self.capacity as nat
    }

    pub fn new(capacity: usize) -> (r: Self)
        ensures
            r.text() == Seq::<char>::empty(),
            r.cap() == capacity,
    {
        OutputBuffer { data: String::new(), used: 0, capacity }
    }

    pub fn len(&self) -> (r: usize)
        ensures
            r == self.text().len(),
    {
        proof {
            use_type_invariant(self);
        }
        self.used
    }

    pub fn capacity(&self) -> (r: usize)
        ensures
            r == self.cap(),
    {
        self.capacity
    }

    /// Appends `s` whole, or rejects it when the result together with the
    /// terminator slot would no longer fit the capacity; a rejected append
    /// leaves the buffer untouched.
    pub fn append(&mut self, s: &str) -> (r: Status)
        ensures
            final(self).cap() == old(self).cap(),
            r == Status::Success ==> final(self).text() == old(self).text() + s@
                && final(self).text().len() + 1 <= final(self).cap(),
            r != Status::Success ==> r == Status::InsufficientBufferSize
                && *final(self) == *old(self)
                && old(self).text().len() + s@.len() + 1 > old(self).cap(),
    {
        proof {
            use_type_invariant(&*self);
        }
        match char_len_capped(s, self.capacity) {
            None => Status::InsufficientBufferSize,
            Some(n) => {
                if n >= self.capacity - self.used {
                    Status::InsufficientBufferSize
                } else {
                    let mut tmp = OutputBuffer { data: String::new(), used: 0, capacity: 0 };
                    core::mem::swap(self, &mut tmp);
                    let OutputBuffer { mut data, used, capacity } = tmp;
                    data.append(s);
                    *self = OutputBuffer { data, used: used + n, capacity };
                    Status::Success
                }
            }
        }
    }

    /// Hands the accumulated text out as the owned result string.
    pub fn into_string(self) -> (r: String)
        ensures
            r@ == self.text(),
    {
        self.data
    }
}

} // verus!
