//! Rendering of heterogenous lists: the texts of the elements in order, with
//! a comma and a space between each two of them.

use vstd::prelude::*;
use vstd::string::StringExecFns;
use crate::join::{
    joined, lemma_flatten_concat, lemma_flatten_single, lemma_joined_cons, push_piece, separator,
    texts,
};
use crate::printable::Printable;
use crate::sink::{lemma_write_each_concat, FormatError, Sink};
use crate::{HeterogenousList, ListTerminator};

verus! {

/// A list that can be rendered. It is implemented for every list whose
/// elements are all [`Printable`], and for nothing without an element: the
/// terminator alone has no rendering, so that an empty list cannot even be
/// asked for one.
pub trait MyDisplay {
    /// The texts of the list's elements, first element first.
    spec fn items(&self) -> Seq<Seq<char>>;

    /// The writes by which the list reaches a sink, in order: the pieces of
    /// each element, and the separator as a piece of its own between each two
    /// elements.
    spec fn pieces(&self) -> Seq<Seq<char>>;

    /// A list that can be rendered has at least one element.
    proof fn lemma_items_nonempty(&self)
        ensures
            self.items().len() >= 1,
    ;

    /// The pieces put together are the element texts joined.
    proof fn lemma_pieces_joined(&self)
        ensures
            self.pieces().flatten() == joined(self.items()),
    ;

    /// Writes the list to `f`, piece by piece. It succeeds exactly when the
    /// whole rendering fits, and then `f` has grown by it. Otherwise it stops
    /// at the first piece that does not fit, having written the pieces before
    /// it.
    fn fmt(&self, f: &mut Sink) -> (r: Result<(), FormatError>)
        ensures
            r is Ok <==> old(f)@.admits(joined(self.items()).len()),
            r is Ok ==> final(f)@ == old(f)@.append(joined(self.items())),
            r is Err ==> final(f)@ == old(f)@.write_each(self.pieces()),
    ;

    /// Adds the list's pieces to `out`, each as a string of its own, for a
    /// caller that hands them on to a sink of another kind.
    fn push_pieces(&self, out: &mut Vec<String>)
        ensures
            texts(final(out)@) == texts(old(out)@) + self.pieces(),
    ;
}

impl<T: ?Sized + MyDisplay> MyDisplay for &T {
    open spec fn items(&self) -> Seq<Seq<char>> {
        (**self).items()
    }

    open spec fn pieces(&self) -> Seq<Seq<char>> {
        (**self).pieces()
    }

    proof fn lemma_items_nonempty(&self) {
        (**self).lemma_items_nonempty();
    }

    proof fn lemma_pieces_joined(&self) {
        (**self).lemma_pieces_joined();
    }

    fn fmt(&self, f: &mut Sink) -> (r: Result<(), FormatError>) {
        (**self).fmt(f)
    }

    fn push_pieces(&self, out: &mut Vec<String>) {
        (**self).push_pieces(out)
    }
}

impl<Head, Tail> MyDisplay for HeterogenousList<Head, Tail> where
    Head: Printable,
    Tail: MyDisplay,
 {
    open spec fn items(&self) -> Seq<Seq<char>> {
        seq![self.head.text()] + self.tail.items()
    }

    open spec fn pieces(&self) -> Seq<Seq<char>> {
        self.head.pieces() + seq![separator()] + self.tail.pieces()
    }

    proof fn lemma_items_nonempty(&self) {
    }

    proof fn lemma_pieces_joined(&self) {
        self.head.lemma_pieces_text();
        self.tail.lemma_pieces_joined();
        self.tail.lemma_items_nonempty();
        lemma_joined_cons(self.head.text(), self.tail.items());
        lemma_flatten_single(separator());
        lemma_flatten_concat(self.head.pieces(), seq![separator()]);
        lemma_flatten_concat(self.head.pieces() + seq![separator()], self.tail.pieces());
    }

    fn fmt(&self, f: &mut Sink) -> (r: Result<(), FormatError>) {
        let ghost start = f@;
        let ghost behind = seq![separator()] + self.tail.pieces();
        proof {
            self.head.lemma_pieces_text();
            self.tail.lemma_items_nonempty();
            lemma_joined_cons(self.head.text(), self.tail.items());
            reveal_strlit(", ");
            assert(", "@ =~= separator());
            assert(self.pieces() =~= self.head.pieces() + behind);
            lemma_write_each_concat(start, self.head.pieces(), behind);
            assert(behind.drop_first() =~= self.tail.pieces());
        }
        if self.head.fmt(f).is_err() {
            return Err(FormatError);
        }
        let ghost first = f@;
        assert(start.write_each(self.pieces()) == first.write_each(behind));
        if f.write_str(", ").is_err() {
            return Err(FormatError);
        }
        let ghost second = f@;
        assert(first.write_each(behind) == second.write_each(self.tail.pieces()));
        let r = self.tail.fmt(f);
        proof {
            if r is Ok {
                assert(second.append(joined(self.tail.items())).written =~= start.append(
                    joined(self.items()),
                ).written);
            }
        }
        r
    }

    fn push_pieces(&self, out: &mut Vec<String>) {
        self.head.push_pieces(out);
        proof {
            reveal_strlit(", ");
            assert(", "@ =~= separator());
        }
        push_piece(out, String::from_str(", "));
        self.tail.push_pieces(out);
        assert(texts(out@) =~= texts(old(out)@) + self.pieces());
    }
}

impl<Head: Printable> MyDisplay for HeterogenousList<Head, ListTerminator> {
    open spec fn items(&self) -> Seq<Seq<char>> {
        seq![self.head.text()]
    }

    open spec fn pieces(&self) -> Seq<Seq<char>> {
        self.head.pieces()
    }

    proof fn lemma_items_nonempty(&self) {
    }

    proof fn lemma_pieces_joined(&self) {
        self.head.lemma_pieces_text();
    }

    fn fmt(&self, f: &mut Sink) -> (r: Result<(), FormatError>) {
        self.head.fmt(f)
    }

    fn push_pieces(&self, out: &mut Vec<String>) {
        self.head.push_pieces(out)
    }
}

/// The rendering of a list: the texts of its elements, joined.
pub open spec fn rendered<T: MyDisplay>(list: T) -> Seq<char> {
    joined(list.items())
}

/// A list made ready for rendering: [`StdDisplayWrapper::to_string`] gives
/// its text, and as a [`Printable`] it is written exactly as the list is, also
/// where it stands as an element of another list.
#[derive(Debug, Clone, Copy, PartialEq, Eq, PartialOrd, Ord)]
pub struct StdDisplayWrapper<T: ?Sized>(T);

impl<T> StdDisplayWrapper<T> {
    /// The list that is wrapped.
    pub closed spec fn list(self) -> T {
        self.0
    }

    /// Gives the list back.
    pub fn into_inner(self) -> (list: T)
        ensures
            list == self.list(),
    {
        self.0
    }
}

impl<T: MyDisplay> StdDisplayWrapper<T> {
    /// The rendering of the list as a string of its own. The list is left as
    /// it was, so that rendering it again gives the same text.
    pub fn to_string(&self) -> (s: String)
        ensures
            s@ == rendered(self.list()),
    {
        let mut f = Sink::unbounded();
        let _ = self.0.fmt(&mut f);
        f.into_string()
    }

    /// The pieces of the list in the order in which they are written, each
    /// as a string of its own.
    pub fn pieces(&self) -> (pieces: Vec<String>)
        ensures
            texts(pieces@) == self.list().pieces(),
    {
        let mut pieces: Vec<String> = Vec::new();
        self.0.push_pieces(&mut pieces);
        assert(texts(pieces@) =~= self.list().pieces());
        pieces
    }
}

/// The wrapper adds nothing of its own: as an element, it is written as the
/// list it wraps is written.
impl<T: MyDisplay> Printable for StdDisplayWrapper<T> {
    open spec fn text(&self) -> Seq<char> {
        rendered(self.list())
    }

    open spec fn pieces(&self) -> Seq<Seq<char>> {
        self.list().pieces()
    }

    proof fn lemma_pieces_text(&self) {
        self.list().lemma_pieces_joined();
    }

    fn fmt(&self, f: &mut Sink) -> (r: Result<(), FormatError>)
        ensures
            r is Ok <==> old(f)@.admits(rendered(self.list()).len()),
            r is Ok ==> final(f)@ == old(f)@.append(rendered(self.list())),
            r is Err ==> final(f)@ == old(f)@.write_each(self.list().pieces()),
    {
        self.0.fmt(f)
    }

    fn push_pieces(&self, out: &mut Vec<String>) {
        self.0.push_pieces(out)
    }
}

/// Wraps up the provided list into a type that renders it, when all
/// elements of the list are [`Printable`].
pub fn display_list<Head, Tail>(list: HeterogenousList<Head, Tail>) -> (wrapper:
    StdDisplayWrapper<HeterogenousList<Head, Tail>>) where
    HeterogenousList<Head, Tail>: MyDisplay,
    ensures
        wrapper.list() == list,
{
    StdDisplayWrapper(list)
}

/// An extension trait for lists that adds a `display` method.
pub trait HConsDisplayExt: Sized {
    /// Wraps up the list into a type that renders it.
    fn display(self) -> (wrapper: StdDisplayWrapper<Self>)
        ensures
            wrapper.list() == self,
    ;
}

impl<Head, Tail> HConsDisplayExt for HeterogenousList<Head, Tail> where
    HeterogenousList<Head, Tail>: MyDisplay,
 {
    fn display(self) -> (wrapper: StdDisplayWrapper<Self>) {
        StdDisplayWrapper(self)
    }
}

/// The rendering of a list with further elements is the text of its first
/// element, then the separator, then the rendering of the rest.
pub proof fn lemma_rendered_node<Head: Printable, Tail: MyDisplay>(
    list: HeterogenousList<Head, Tail>,
)
    ensures
        rendered(list) == list.head.text() + separator() + rendered(list.tail),
{
    list.tail.lemma_items_nonempty();
    lemma_joined_cons(list.head.text(), list.tail.items());
}

/// The rendering of a list of one element is the text of that element, with
/// no separator.
pub proof fn lemma_rendered_last<Head: Printable>(list: HeterogenousList<Head, ListTerminator>)
    ensures
        rendered(list) == list.head.text(),
{
}

/// Rendering composes: of three elements, the rendering is the first
/// element's text, the separator, and the rendering of the list of the other
/// two; written out, the three texts with the separator between them.
pub proof fn lemma_rendered_three<A: Printable, B: Printable, C: Printable>(a: A, b: B, c: C)
    ensures
        ({
            let last = HeterogenousList { head: c, tail: ListTerminator };
            let rest = HeterogenousList { head: b, tail: last };
            let list = HeterogenousList { head: a, tail: rest };
            &&& rendered(list) == a.text() + separator() + rendered(rest)
            &&& rendered(list) == a.text() + separator() + b.text() + separator() + c.text()
        }),
{
    let last = HeterogenousList { head: c, tail: ListTerminator };
    let rest = HeterogenousList { head: b, tail: last };
    let list = HeterogenousList { head: a, tail: rest };
    lemma_rendered_node(list);
    lemma_rendered_node(rest);
    lemma_rendered_last(last);
    assert(a.text() + separator() + (b.text() + separator() + c.text()) =~= a.text() + separator()
        + b.text() + separator() + c.text());
}

/// Rendering changes nothing and depends on the list alone: whatever two
/// renderings of one list give is the same text.
pub proof fn lemma_rendered_twice<T: MyDisplay>(list: T, first: String, second: String)
    requires
        first@ == rendered(list),
        second@ == rendered(list),
    ensures
        first@ == second@,
{
}

} // verus!
