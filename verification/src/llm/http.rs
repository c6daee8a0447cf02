//! Framing of a server-sent-events stream: the bytes arrive in chunks, and each
//! complete line is an event line.
use vstd::prelude::*;
use crate::text::{chars_of, has_prefix, index_of_from, matches_at_exec, str_eq, string_of, substring_of, trim, trim_exec};

verus! {

/// What one line of the stream means.
#[derive(Debug, Clone, PartialEq, Eq)]
pub enum SseLine {
    /// A blank line, or one that is not a `data: ` line: nothing to do.
    Skip,
    /// `[DONE]`: the stream is over.
    Done,
    /// The payload of a `data: ` line.
    Data(String),
}

/// The meaning of a trimmed line.
pub open spec fn sse_line_meaning(line: Seq<char>) -> Option<Option<Seq<char>>> {
    let l = trim(line);
    if l.len() == 0 {
        None
    } else if l == "[DONE]"@ {
        Some(None)
    } else if has_prefix(l, "data: "@) {
        Some(Some(l.skip("data: "@.len() as int)))
    } else {
        None
    }
}

/// Classifies one line of the stream: it is trimmed; a blank line is skipped,
/// `[DONE]` ends the stream, and a `data: ` line hands on its payload.
pub fn classify_sse_line(line: &str) -> (r: SseLine)
    ensures
        match r {
            SseLine::Skip => sse_line_meaning(line@) is None,
            SseLine::Done => sse_line_meaning(line@) == Some(None::<Seq<char>>),
            SseLine::Data(d) => sse_line_meaning(line@) == Some(Some(d@)),
        },
{
    let v = chars_of(line);
    let l = trim_exec(&v);
    if l.len() == 0 {
        return SseLine::Skip;
    }
    let ls = string_of(l.as_slice());
    if str_eq(ls.as_str(), "[DONE]") {
        return SseLine::Done;
    }
    let prefix = chars_of("data: ");
    if matches_at_exec(&l, &prefix, 0) {
        let d = substring_of(&l, prefix.len(), l.len());
        assert(d@ =~= l@.skip(prefix@.len() as int));
        SseLine::Data(d)
    } else {
        SseLine::Skip
    }
}

/// Text received but not yet cut into lines.
pub struct SseBuffer {
    pending: Vec<char>,
}

impl View for SseBuffer {
    type V = Seq<char>;

    closed spec fn view(&self) -> Seq<char> {
        self.pending@
    }
}

impl SseBuffer {
    /// An empty buffer.
    pub fn new() -> (r: Self)
        ensures
            r@ == Seq::<char>::empty(),
    {
        SseBuffer { pending: Vec::new() }
    }

    /// Appends a chunk of received text.
    pub fn feed(&mut self, text: &str)
        ensures
            final(self)@ == old(self)@ + text@,
    {
        let v = chars_of(text);
        let mut i: usize = 0;
        while i < v.len()
            invariant
                i <= v@.len(),
                v@ == text@,
                self.pending@ == old(self)@ + v@.take(i as int),
            decreases v.len() - i,
        {
            self.pending.push(v[i]);
            assert(v@.take(i + 1) =~= v@.take(i as int).push(v@[i as int]));
            i = i + 1;
        }
        assert(v@.take(v@.len() as int) =~= v@);
    }

    /// Takes the first complete line (without its line feed) out of the buffer;
    /// nothing while no line feed has arrived. The line, a line feed and what
    /// stays in the buffer make up the buffer as it was.
    pub fn next_line(&mut self) -> (r: Option<String>)
        ensures
            match index_of_from(old(self)@, '\n', 0) {
                Some(i) => r matches Some(line) && line@ == old(self)@.take(i) && final(self)@ == old(
                    self,
                )@.skip(i + 1),
                None => r is None && final(self)@ == old(self)@,
            },
            r matches Some(line) ==> old(self)@ == line@ + seq!['\n'] + final(self)@,
    {
        let mut i: usize = 0;
        while i < self.pending.len() && self.pending[i] != '\n'
            invariant
                i <= self.pending@.len(),
                self.pending@ == old(self)@,
                index_of_from(self.pending@, '\n', 0) == index_of_from(self.pending@, '\n', i as int),
            decreases self.pending.len() - i,
        {
            i = i + 1;
        }
        if i == self.pending.len() {
            return None;
        }
        let line = substring_of(&self.pending, 0, i);
        let mut rest: Vec<char> = Vec::new();
        let mut k = i + 1;
        while k < self.pending.len()
            invariant
                i < k <= self.pending@.len() || (k == i + 1 && i < self.pending@.len()),
                self.pending@ == old(self)@,
                rest@ == self.pending@.subrange(i + 1, k as int),
            decreases self.pending.len() - k,
        {
            rest.push(self.pending[k]);
            assert(self.pending@.subrange(i + 1, k + 1) =~= self.pending@.subrange(i + 1, k as int).push(self.pending@[k as int]));
            k = k + 1;
        }
        self.pending = rest;
        proof {
            assert(self.pending@ =~= old(self)@.skip(i + 1));
            assert(old(self)@ =~= line@ + seq!['\n'] + self.pending@);
        }
        Some(line)
    }
}

} // verus!
