//! Server-sent event framing of a streamed completion: bytes arrive in
//! arbitrary pieces, events are separated by a blank line, and each `data: `
//! line of an event carries one JSON chunk, or `[DONE]` at the end.

use vstd::prelude::*;
use vstd::utf8::{decode_utf8, valid_utf8};

use crate::text::{
    chars_of, find_first, first_occurrence, occurs_at, lines, push_str, split_lines, string_of_range,
    trimmed, trimmed_range,
};

verus! {

/// The text `String::from_utf8_lossy` makes of `bytes`.
pub uninterp spec fn spec_utf8_lossy(bytes: Seq<u8>) -> Seq<char>;

/// Calls `String::from_utf8_lossy`, which decodes UTF-8 and replaces each
/// invalid sequence with U+FFFD; on valid UTF-8 it is plain decoding. Where
/// replacements happen is not restated here.
#[verifier::external_body]
fn utf8_lossy(bytes: &[u8]) -> (s: String)
    ensures
        s@ == spec_utf8_lossy(bytes@),
        valid_utf8(bytes@) ==> s@ == decode_utf8(bytes@),
{
    String::from_utf8_lossy(bytes).into_owned()
}

/// The event separator: a blank line.
pub open spec fn separator() -> Seq<char> {
    seq!['\n', '\n']
}

/// Text received but not yet cut into events.
pub struct SseBuffer {
    buf: String,
}

impl View for SseBuffer {
    type V = Seq<char>;

    closed spec fn view(&self) -> Seq<char> {
        self.buf@
    }
}

/// What one line of an event says.
#[derive(PartialEq, Eq, Debug)]
pub enum SseLine {
    /// Not a `data: ` line.
    Skip,
    /// The end-of-stream marker `[DONE]`.
    Done,
    /// A data payload, trimmed.
    Data(String),
}

/// What a line says, on its characters.
pub open spec fn line_meaning(line: Seq<char>) -> Option<Option<Seq<char>>> {
    let prefix = seq!['d', 'a', 't', 'a', ':', ' '];
    if line.len() >= 6 && line.take(6) == prefix {
        let d = trimmed(line.skip(6));
        if d == seq!['[', 'D', 'O', 'N', 'E', ']'] {
            Some(None)
        } else {
            Some(Some(d))
        }
    } else {
        None
    }
}

impl SseBuffer {
    /// An empty buffer.
    pub fn new() -> (b: Self)
        ensures
            b@ == Seq::<char>::empty(),
    {
        SseBuffer { buf: String::new() }
    }

    /// Append a piece of the byte stream, decoded as `String::from_utf8_lossy` does.
    pub fn push_bytes(&mut self, bytes: &[u8])
        ensures
            final(self)@ == old(self)@ + spec_utf8_lossy(bytes@),
            valid_utf8(bytes@) ==> final(self)@ == old(self)@ + decode_utf8(bytes@),
    {
        let text = utf8_lossy(bytes);
        push_str(&mut self.buf, text.as_str());
    }

    /// Take the next complete event: the text before the first blank line,
    /// trimmed; the buffer keeps what follows the blank line. `None`, with the
    /// buffer unchanged, while no blank line has arrived.
    pub fn next_event(&mut self) -> (r: Option<String>)
        ensures
            match r {
                Some(e) => exists|p: int|
                    first_occurrence(old(self)@, separator(), p)
                        && e@ == trimmed(old(self)@.take(p))
                        && final(self)@ == old(self)@.skip(p + 2),
                None => !crate::text::contains_seq(old(self)@, separator())
                    && final(self)@ == old(self)@,
            },
    {
        let cs = chars_of(self.buf.as_str());
        let sep: Vec<char> = vec!['\n', '\n'];
        assert(sep@ =~= separator());
        match find_first(&cs, &sep) {
            Some(p) => {
                assert(occurs_at(cs@, sep@, p as int));
                let n = cs.len();
                assert(p + 2 <= n);
                let event = trimmed_range(&cs, 0, p);
                let rest = string_of_range(&cs, p + 2, n);
                assert(cs@.subrange(0, p as int) =~= cs@.take(p as int));
                assert(cs@.subrange(p + 2, cs@.len() as int) =~= cs@.skip(p + 2));
                self.buf = rest;
                assert(first_occurrence(old(self)@, separator(), p as int));
                Some(event)
            },
            None => None,
        }
    }
}

/// The lines of an event, as `str::lines` yields them.
pub fn event_lines(event: &str) -> (r: Vec<String>)
    ensures
        r@.len() == lines(event@).len(),
        forall|k: int| 0 <= k < r@.len() ==> #[trigger] r@[k]@ == lines(event@)[k],
{
    split_lines(event)
}

/// Read one line of an event: a `data: ` line gives its trimmed payload, or
/// `Done` for `[DONE]`; any other line is skipped.
pub fn sse_line(line: &str) -> (r: SseLine)
    ensures
        match line_meaning(line@) {
            None => r == SseLine::Skip,
            Some(None) => r == SseLine::Done,
            Some(Some(d)) => r matches SseLine::Data(t) && t@ == d,
        },
{
    let cs = chars_of(line);
    let prefix: Vec<char> = vec!['d', 'a', 't', 'a', ':', ' '];
    if cs.len() < 6 {
        return SseLine::Skip;
    }
    let mut k: usize = 0;
    while k < 6
        invariant
            cs@ == line@,
            cs@.len() >= 6,
            prefix@ == seq!['d', 'a', 't', 'a', ':', ' '],
            k <= 6,
            forall|j: int| 0 <= j < k ==> cs@[j] == prefix@[j],
        decreases 6 - k,
    {
        if cs[k] != prefix[k] {
            assert(line@.take(6)[k as int] != prefix@[k as int]);
            return SseLine::Skip;
        }
        k = k + 1;
    }
    assert(line@.take(6) =~= prefix@);
    let data = trimmed_range(&cs, 6, cs.len());
    assert(cs@.subrange(6, cs@.len() as int) =~= line@.skip(6));
    let dc = chars_of(data.as_str());
    let done: Vec<char> = vec!['[', 'D', 'O', 'N', 'E', ']'];
    let ghost done_seq = seq!['[', 'D', 'O', 'N', 'E', ']'];
    assert(done@ =~= done_seq);
    if dc.len() == 6 {
        let mut same = true;
        let mut j: usize = 0;
        while j < 6
            invariant
                dc@.len() == 6,
                done@ == done_seq,
                done@.len() == 6,
                j <= 6,
                same == (forall|i: int| 0 <= i < j ==> dc@[i] == done@[i]),
            decreases 6 - j,
        {
            if dc[j] != done[j] {
                same = false;
            }
            j = j + 1;
        }
        if same {
            assert(dc@ =~= done_seq);
            return SseLine::Done;
        }
        assert(dc@ != done_seq) by {
            let i = choose|i: int| 0 <= i < 6 && dc@[i] != done@[i];
            assert(dc@[i] != done_seq[i]);
        }
    }
    SseLine::Data(data)
}

} // verus!
