//! Values that have a text of their own, and can therefore be elements of a
//! list that is rendered.

use vstd::prelude::*;
use vstd::string::StringExecFns;
use crate::decimal::{integer_text, signed_to_string, unsigned_to_string};
use crate::join::{lemma_flatten_single, push_piece, texts};
use crate::sink::{FormatError, Sink};
use crate::strings::push_char;

verus! {

/// A value with a text representation. Integers have their decimal notation,
/// booleans `true` and `false`, characters and strings themselves, and a
/// reference the text of what it refers to.
pub trait Printable {
    /// The text that stands for the value.
    spec fn text(&self) -> Seq<char>;

    /// The writes by which the text reaches a sink, in order. All the
    /// elements named above are written in one piece.
    spec fn pieces(&self) -> Seq<Seq<char>>;

    /// The pieces put together are the text.
    proof fn lemma_pieces_text(&self)
        ensures
            self.pieces().flatten() == self.text(),
    ;

    /// Writes the value's text to `f`, piece by piece. It succeeds exactly
    /// when the whole text fits, and then `f` has grown by it. Otherwise it
    /// stops at the first piece that does not fit, having written the pieces
    /// before it.
    fn fmt(&self, f: &mut Sink) -> (r: Result<(), FormatError>)
        ensures
            r is Ok <==> old(f)@.admits(self.text().len()),
            r is Ok ==> final(f)@ == old(f)@.append(self.text()),
            r is Err ==> final(f)@ == old(f)@.write_each(self.pieces()),
    ;

    /// Adds the value's pieces to `out`, each as a string of its own, for a
    /// caller that hands them on to a sink of another kind.
    fn push_pieces(&self, out: &mut Vec<String>)
        ensures
            texts(final(out)@) == texts(old(out)@) + self.pieces(),
    ;
}

impl<T: ?Sized + Printable> Printable for &T {
    open spec fn text(&self) -> Seq<char> {
        (**self).text()
    }

    open spec fn pieces(&self) -> Seq<Seq<char>> {
        (**self).pieces()
    }

    proof fn lemma_pieces_text(&self) {
        (**self).lemma_pieces_text();
    }

    fn fmt(&self, f: &mut Sink) -> (r: Result<(), FormatError>) {
        (**self).fmt(f)
    }

    fn push_pieces(&self, out: &mut Vec<String>) {
        (**self).push_pieces(out)
    }
}

impl Printable for str {
    open spec fn text(&self) -> Seq<char> {
        self@
    }

    open spec fn pieces(&self) -> Seq<Seq<char>> {
        seq![self.text()]
    }

    proof fn lemma_pieces_text(&self) {
        lemma_flatten_single(self.text());
    }

    fn fmt(&self, f: &mut Sink) -> (r: Result<(), FormatError>) {
        f.write_str(self)
    }

    fn push_pieces(&self, out: &mut Vec<String>) {
        push_piece(out, String::from_str(self))
    }
}

impl Printable for String {
    open spec fn text(&self) -> Seq<char> {
        self@
    }

    open spec fn pieces(&self) -> Seq<Seq<char>> {
        seq![self.text()]
    }

    proof fn lemma_pieces_text(&self) {
        lemma_flatten_single(self.text());
    }

    fn fmt(&self, f: &mut Sink) -> (r: Result<(), FormatError>) {
        f.write_str(self.as_str())
    }

    fn push_pieces(&self, out: &mut Vec<String>) {
        push_piece(out, self.clone())
    }
}

impl Printable for char {
    open spec fn text(&self) -> Seq<char> {
        seq![*self]
    }

    open spec fn pieces(&self) -> Seq<Seq<char>> {
        seq![self.text()]
    }

    proof fn lemma_pieces_text(&self) {
        lemma_flatten_single(self.text());
    }

    fn fmt(&self, f: &mut Sink) -> (r: Result<(), FormatError>) {
        f.write_char(*self)
    }

    fn push_pieces(&self, out: &mut Vec<String>) {
        let mut piece = String::new();
        push_char(&mut piece, *self);
        assert(piece@ =~= seq![*self]);
        push_piece(out, piece)
    }
}

/// The word for a boolean.
fn bool_word(b: bool) -> (word: &'static str)
    ensures
        word@ == b.text(),
{
    proof {
        reveal_strlit("true");
        reveal_strlit("false");
        assert("true"@ =~= seq!['t', 'r', 'u', 'e']);
        assert("false"@ =~= seq!['f', 'a', 'l', 's', 'e']);
    }
    if b {
        "true"
    } else {
        "false"
    }
}

impl Printable for bool {
    open spec fn text(&self) -> Seq<char> {
        if *self {
            seq!['t', 'r', 'u', 'e']
        } else {
            seq!['f', 'a', 'l', 's', 'e']
        }
    }

    open spec fn pieces(&self) -> Seq<Seq<char>> {
        seq![self.text()]
    }

    proof fn lemma_pieces_text(&self) {
        lemma_flatten_single(self.text());
    }

    fn fmt(&self, f: &mut Sink) -> (r: Result<(), FormatError>) {
        let word: &str = bool_word(*self);
        f.write_str(word)
    }

    fn push_pieces(&self, out: &mut Vec<String>) {
        push_piece(out, String::from_str(bool_word(*self)))
    }
}

impl Printable for u8 {
    open spec fn text(&self) -> Seq<char> {
        integer_text(*self as int)
    }

    open spec fn pieces(&self) -> Seq<Seq<char>> {
        seq![self.text()]
    }

    proof fn lemma_pieces_text(&self) {
        lemma_flatten_single(self.text());
    }

    fn fmt(&self, f: &mut Sink) -> (r: Result<(), FormatError>) {
        f.write_str(unsigned_to_string(*self as u128).as_str())
    }

    fn push_pieces(&self, out: &mut Vec<String>) {
        push_piece(out, unsigned_to_string(*self as u128))
    }
}

impl Printable for u16 {
    open spec fn text(&self) -> Seq<char> {
        integer_text(*self as int)
    }

    open spec fn pieces(&self) -> Seq<Seq<char>> {
        seq![self.text()]
    }

    proof fn lemma_pieces_text(&self) {
        lemma_flatten_single(self.text());
    }

    fn fmt(&self, f: &mut Sink) -> (r: Result<(), FormatError>) {
        f.write_str(unsigned_to_string(*self as u128).as_str())
    }

    fn push_pieces(&self, out: &mut Vec<String>) {
        push_piece(out, unsigned_to_string(*self as u128))
    }
}

impl Printable for u32 {
    open spec fn text(&self) -> Seq<char> {
        integer_text(*self as int)
    }

    open spec fn pieces(&self) -> Seq<Seq<char>> {
        seq![self.text()]
    }

    proof fn lemma_pieces_text(&self) {
        lemma_flatten_single(self.text());
    }

    fn fmt(&self, f: &mut Sink) -> (r: Result<(), FormatError>) {
        f.write_str(unsigned_to_string(*self as u128).as_str())
    }

    fn push_pieces(&self, out: &mut Vec<String>) {
        push_piece(out, unsigned_to_string(*self as u128))
    }
}

impl Printable for u64 {
    open spec fn text(&self) -> Seq<char> {
        integer_text(*self as int)
    }

    open spec fn pieces(&self) -> Seq<Seq<char>> {
        seq![self.text()]
    }

    proof fn lemma_pieces_text(&self) {
        lemma_flatten_single(self.text());
    }

    fn fmt(&self, f: &mut Sink) -> (r: Result<(), FormatError>) {
        f.write_str(unsigned_to_string(*self as u128).as_str())
    }

    fn push_pieces(&self, out: &mut Vec<String>) {
        push_piece(out, unsigned_to_string(*self as u128))
    }
}

impl Printable for u128 {
    open spec fn text(&self) -> Seq<char> {
        integer_text(*self as int)
    }

    open spec fn pieces(&self) -> Seq<Seq<char>> {
        seq![self.text()]
    }

    proof fn lemma_pieces_text(&self) {
        lemma_flatten_single(self.text());
    }

    fn fmt(&self, f: &mut Sink) -> (r: Result<(), FormatError>) {
        f.write_str(unsigned_to_string(*self).as_str())
    }

    fn push_pieces(&self, out: &mut Vec<String>) {
        push_piece(out, unsigned_to_string(*self))
    }
}

impl Printable for usize {
    open spec fn text(&self) -> Seq<char> {
        integer_text(*self as int)
    }

    open spec fn pieces(&self) -> Seq<Seq<char>> {
        seq![self.text()]
    }

    proof fn lemma_pieces_text(&self) {
        lemma_flatten_single(self.text());
    }

    fn fmt(&self, f: &mut Sink) -> (r: Result<(), FormatError>) {
        f.write_str(unsigned_to_string(*self as u128).as_str())
    }

    fn push_pieces(&self, out: &mut Vec<String>) {
        push_piece(out, unsigned_to_string(*self as u128))
    }
}

impl Printable for i8 {
    open spec fn text(&self) -> Seq<char> {
        integer_text(*self as int)
    }

    open spec fn pieces(&self) -> Seq<Seq<char>> {
        seq![self.text()]
    }

    proof fn lemma_pieces_text(&self) {
        lemma_flatten_single(self.text());
    }

    fn fmt(&self, f: &mut Sink) -> (r: Result<(), FormatError>) {
        f.write_str(signed_to_string(*self as i128).as_str())
    }

    fn push_pieces(&self, out: &mut Vec<String>) {
        push_piece(out, signed_to_string(*self as i128))
    }
}

impl Printable for i16 {
    open spec fn text(&self) -> Seq<char> {
        integer_text(*self as int)
    }

    open spec fn pieces(&self) -> Seq<Seq<char>> {
        seq![self.text()]
    }

    proof fn lemma_pieces_text(&self) {
        lemma_flatten_single(self.text());
    }

    fn fmt(&self, f: &mut Sink) -> (r: Result<(), FormatError>) {
        f.write_str(signed_to_string(*self as i128).as_str())
    }

    fn push_pieces(&self, out: &mut Vec<String>) {
        push_piece(out, signed_to_string(*self as i128))
    }
}

impl Printable for i32 {
    open spec fn text(&self) -> Seq<char> {
        integer_text(*self as int)
    }

    open spec fn pieces(&self) -> Seq<Seq<char>> {
        seq![self.text()]
    }

    proof fn lemma_pieces_text(&self) {
        lemma_flatten_single(self.text());
    }

    fn fmt(&self, f: &mut Sink) -> (r: Result<(), FormatError>) {
        f.write_str(signed_to_string(*self as i128).as_str())
    }

    fn push_pieces(&self, out: &mut Vec<String>) {
        push_piece(out, signed_to_string(*self as i128))
    }
}

impl Printable for i64 {
    open spec fn text(&self) -> Seq<char> {
        integer_text(*self as int)
    }

    open spec fn pieces(&self) -> Seq<Seq<char>> {
        seq![self.text()]
    }

    proof fn lemma_pieces_text(&self) {
        lemma_flatten_single(self.text());
    }

    fn fmt(&self, f: &mut Sink) -> (r: Result<(), FormatError>) {
        f.write_str(signed_to_string(*self as i128).as_str())
    }

    fn push_pieces(&self, out: &mut Vec<String>) {
        push_piece(out, signed_to_string(*self as i128))
    }
}

impl Printable for i128 {
    open spec fn text(&self) -> Seq<char> {
        integer_text(*self as int)
    }

    open spec fn pieces(&self) -> Seq<Seq<char>> {
        seq![self.text()]
    }

    proof fn lemma_pieces_text(&self) {
        lemma_flatten_single(self.text());
    }

    fn fmt(&self, f: &mut Sink) -> (r: Result<(), FormatError>) {
        f.write_str(signed_to_string(*self).as_str())
    }

    fn push_pieces(&self, out: &mut Vec<String>) {
        push_piece(out, signed_to_string(*self))
    }
}

impl Printable for isize {
    open spec fn text(&self) -> Seq<char> {
        integer_text(*self as int)
    }

    open spec fn pieces(&self) -> Seq<Seq<char>> {
        seq![self.text()]
    }

    proof fn lemma_pieces_text(&self) {
        lemma_flatten_single(self.text());
    }

    fn fmt(&self, f: &mut Sink) -> (r: Result<(), FormatError>) {
        f.write_str(signed_to_string(*self as i128).as_str())
    }

    fn push_pieces(&self, out: &mut Vec<String>) {
        push_piece(out, signed_to_string(*self as i128))
    }
}

} // verus!
