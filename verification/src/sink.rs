//! The output sink that formatting writes to, and its mathematical model.

use vstd::prelude::*;
use vstd::string::StrSliceExecFns;
use vstd::string::StringExecFns;
use crate::strings::push_char;

verus! {

/// The one way in which formatting fails: the sink refused a write.
#[derive(Debug, Clone, Copy, PartialEq, Eq)]
pub struct FormatError;

/// The state of a sink as contracts see it: the text it holds, and how many more
/// characters it accepts (`None` when it accepts any number).
pub struct SinkState {
    pub written: Seq<char>,
    pub room: Option<nat>,
}

impl SinkState {
    /// Whether a write of `n` characters succeeds.
    pub open spec fn admits(self, n: nat) -> bool {
        match self.room {
            Some(room) => n <= room,
            None => true,
        }
    }

    /// The state after a successful write of `s`.
    pub open spec fn append(self, s: Seq<char>) -> SinkState {
        SinkState {
            written: self.written + s,
            room: match self.room {
                Some(room) => Some((room - s.len()) as nat),
                None => None,
            },
        }
    }

    /// The state after an attempt to write `s`: a write that does not fit
    /// leaves the sink as it was.
    pub open spec fn write(self, s: Seq<char>) -> SinkState {
        if self.admits(s.len()) {
            self.append(s)
        } else {
            self
        }
    }

    /// The state after writing `parts` one by one, up to the first that does
    /// not fit.
    pub open spec fn write_each(self, parts: Seq<Seq<char>>) -> SinkState
        decreases parts.len(),
    {
        if parts.len() == 0 || !self.admits(parts[0].len()) {
            self
        } else {
            self.append(parts[0]).write_each(parts.drop_first())
        }
    }
}

/// A growable text buffer with an optional bound on what it accepts.
#[derive(Debug, Clone, PartialEq, Eq)]
pub struct Sink {
    text: String,
    room: Option<usize>,
}

impl View for Sink {
    type V = SinkState;

    closed spec fn view(&self) -> SinkState {
        SinkState {
            written: self.text@,
            room: match self.room {
                Some(room) => Some(room as nat),
                None => None,
            },
        }
    }
}

impl Sink {
    /// An empty sink that accepts any amount of text.
    pub fn unbounded() -> (sink: Sink)
        ensures
            sink@ == (SinkState { written: Seq::empty(), room: None }),
    {
        Sink { text: String::new(), room: None }
    }

    /// An empty sink that accepts `limit` characters in all.
    pub fn bounded(limit: usize) -> (sink: Sink)
        ensures
            sink@ == (SinkState { written: Seq::empty(), room: Some(limit as nat) }),
    {
        Sink { text: String::new(), room: Some(limit) }
    }

    /// Writes `s` at the end of the sink, or fails and leaves the sink
    /// untouched when `s` does not fit.
    pub fn write_str(&mut self, s: &str) -> (r: Result<(), FormatError>)
        ensures
            r is Ok <==> old(self)@.admits(s@.len()),
            final(self)@ == old(self)@.write(s@),
    {
        match self.room {
            Some(room) => {
                let n: usize = s.unicode_len();
                if n > room {
                    return Err(FormatError);
                }
                self.room = Some(room - n);
            },
            None => {},
        }
        self.text.append(s);
        Ok(())
    }

    /// Writes `c` at the end of the sink, or fails and leaves the sink
    /// untouched when there is no room for it.
    pub fn write_char(&mut self, c: char) -> (r: Result<(), FormatError>)
        ensures
            r is Ok <==> old(self)@.admits(1),
            final(self)@ == old(self)@.write(seq![c]),
    {
        match self.room {
            Some(room) => {
                if room == 0 {
                    return Err(FormatError);
                }
                self.room = Some(room - 1);
            },
            None => {},
        }
        push_char(&mut self.text, c);
        assert(old(self).text@.push(c) =~= old(self).text@ + seq![c]);
        Ok(())
    }

    /// The text written so far.
    pub fn as_str(&self) -> (s: &str)
        ensures
            s@ == self@.written,
    {
        self.text.as_str()
    }

    /// Gives up the sink for the text written to it.
    pub fn into_string(self) -> (s: String)
        ensures
            s@ == self@.written,
    {
        self.text
    }

    /// How many more characters the sink accepts, `None` when unbounded.
    pub fn remaining(&self) -> (room: Option<usize>)
        ensures
            match room {
                Some(n) => self@.room == Some(n as nat),
                None => self@.room is None,
            },
    {
        self.room
    }
}

/// Whatever room the sink has, what the pieces leave in it is the old text
/// followed by the first `n` characters of the pieces put together, and `n`
/// is all of them exactly when all of them fit. So a write in pieces that
/// fails leaves a proper prefix of the whole text behind, and never anything
/// else.
pub proof fn lemma_write_each_prefix(state: SinkState, parts: Seq<Seq<char>>) -> (n: nat)
    ensures
        n <= parts.flatten().len(),
        state.write_each(parts) == state.append(parts.flatten().take(n as int)),
        n == parts.flatten().len() <==> state.admits(parts.flatten().len()),
    decreases parts.len(),
{
    let all = parts.flatten();
    if parts.len() == 0 || !state.admits(parts[0].len()) {
        assert(all.take(0) =~= Seq::empty());
        assert(state.append(Seq::empty()) == state) by {
            assert(state.append(Seq::empty()).written =~= state.written);
        }
        0
    } else {
        let rest = parts.drop_first();
        let next = state.append(parts[0]);
        let m = lemma_write_each_prefix(next, rest);
        let n = parts[0].len() + m;
        assert(all.take(n as int) =~= parts[0] + rest.flatten().take(m as int));
        assert(next.append(rest.flatten().take(m as int)) == state.append(all.take(n as int))) by {
            assert(next.append(rest.flatten().take(m as int)).written =~= state.append(
                all.take(n as int),
            ).written);
        }
        n
    }
}

/// Written to a sink with room for all of them, the pieces leave their whole
/// text in the sink.
pub proof fn lemma_write_each_fits(state: SinkState, parts: Seq<Seq<char>>)
    requires
        state.admits(parts.flatten().len()),
    ensures
        state.write_each(parts) == state.append(parts.flatten()),
{
    let n = lemma_write_each_prefix(state, parts);
    assert(parts.flatten().take(n as int) =~= parts.flatten());
}

/// Pieces followed by further pieces: where the first all fit, the others are
/// written behind them; where they do not, writing stops among the first and
/// the others are not tried.
pub proof fn lemma_write_each_concat(
    state: SinkState,
    first: Seq<Seq<char>>,
    second: Seq<Seq<char>>,
)
    ensures
        state.write_each(first + second) == if state.admits(first.flatten().len()) {
            state.append(first.flatten()).write_each(second)
        } else {
            state.write_each(first)
        },
    decreases first.len(),
{
    let all = first + second;
    if first.len() == 0 {
        assert(all =~= second);
        assert(state.append(Seq::empty()) == state) by {
            assert(state.append(Seq::empty()).written =~= state.written);
        }
    } else {
        assert(all[0] == first[0]);
        assert(all.drop_first() =~= first.drop_first() + second);
        if state.admits(first[0].len()) {
            let next = state.append(first[0]);
            lemma_write_each_concat(next, first.drop_first(), second);
            if next.admits(first.drop_first().flatten().len()) {
                assert(next.append(first.drop_first().flatten()) == state.append(first.flatten()))
                    by {
                    assert(next.append(first.drop_first().flatten()).written =~= state.append(
                        first.flatten(),
                    ).written);
                }
            }
        }
    }
}

} // verus!
