//! An ordered, mergeable collection of validation messages.  Every builder
//! in the crate appends its findings here instead of aborting, so that one
//! conversion can surface all problems at once.

use vstd::prelude::*;
use crate::text::chars_to_string;
use crate::text::push_chars;
use crate::text::to_char_vec;

verus! {

/// Ordered log of validation error messages.
#[derive(Debug)]
pub struct ErrorLog {
    errors: Vec<String>,
}

impl View for ErrorLog {
    type V = Seq<Seq<char>>;

    closed spec fn view(&self) -> Seq<Seq<char>> {
        Seq::new(self.errors@.len(), |i: int| self.errors@[i]@)
    }
}

/// The messages joined by single newlines, with no trailing newline.
pub open spec fn join_lines(msgs: Seq<Seq<char>>) -> Seq<char>
    decreases msgs.len(),
{
    if msgs.len() == 0 {
        Seq::empty()
    } else if msgs.len() == 1 {
        msgs[0]
    } else {
        join_lines(msgs.drop_last()) + seq!['\n'] + msgs.last()
    }
}

impl ErrorLog {
    /// An empty log.
    pub fn new() -> (log: Self)
        ensures
            log@ == Seq::<Seq<char>>::empty(),
    {
        let log = Self { errors: Vec::new() };
        proof {
            assert(log@ =~= Seq::<Seq<char>>::empty());
        }
        log
    }

    /// Append one message at the end of the log.
    pub fn write_error(&mut self, error: &str)
        ensures
            final(self)@ == old(self)@.push(error@),
    {
        self.errors.push(error.to_owned());
        proof {
            assert(self@ =~= old(self)@.push(error@));
        }
    }

    /// Append all of `log`'s messages after this log's own, keeping both
    /// orders.
    pub fn merge_log(&mut self, log: &Self)
        ensures
            final(self)@ == old(self)@ + log@,
    {
        let mut i: usize = 0;
        while i < log.errors.len()
            invariant
                i <= log.errors.len(),
                self@ =~= old(self)@ + log@.subrange(0, i as int),
            decreases log.errors.len() - i,
        {
            let ghost pre = self@;
            self.errors.push(log.errors[i].clone());
            proof {
                let rhs = old(self)@ + log@.subrange(0, (i + 1) as int);
                assert(self@.len() == pre.len() + 1);
                assert(forall|j: int| 0 <= j < pre.len() ==> self@[j] == pre[j]);
                assert(self@[pre.len() as int] == log@[i as int]);
                assert(self@.len() == rhs.len());
                assert forall|j: int| 0 <= j < self@.len() implies self@[j] == rhs[j] by {
                    if j < pre.len() {
                        assert(pre[j] == rhs[j]);
                    } else {
                        assert(rhs[j] == log@.subrange(0, (i + 1) as int)[i as int]);
                    }
                }
                assert(self@ =~= rhs);
            }
            i += 1;
        }
        proof {
            assert(self@ =~= old(self)@ + log@);
        }
    }

    /// Whether the log is empty, that is, whether no error was recorded.
    pub fn has_errors(&self) -> (r: bool)
        ensures
            r <==> self@.len() == 0,
    {
        self.errors.len() == 0
    }

    /// The newline-joined rendering of every message, for user display.
    pub fn to_string(&self) -> (r: String)
        ensures
            r@ == join_lines(self@),
    {
        let mut out: Vec<char> = Vec::new();
        let mut i: usize = 0;
        while i < self.errors.len()
            invariant
                i <= self.errors.len(),
                out@ == join_lines(self@.subrange(0, i as int)),
            decreases self.errors.len() - i,
        {
            if i > 0 {
                out.push('\n');
            }
            let msg = to_char_vec(self.errors[i].as_str());
            push_chars(&mut out, &msg);
            proof {
                let pre = self@.subrange(0, i as int);
                let cur = self@.subrange(0, i + 1);
                assert(cur.drop_last() =~= pre);
                assert(cur.last() == self@[i as int]);
                if i == 0 {
                    assert(out@ =~= join_lines(cur));
                } else {
                    assert(out@ =~= join_lines(cur));
                }
            }
            i += 1;
        }
        proof {
            assert(self@.subrange(0, self@.len() as int) =~= self@);
        }
        chars_to_string(&out)
    }
}

} // verus!
