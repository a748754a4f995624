//! The directory a panel shows, as the names that lead to it from the root.

use vstd::prelude::*;
use vstd::string::StringExecFns;
use crate::text::{push_char, same_text};

verus! {

/// The pieces of a text between its slashes. A text without a slash is one
/// piece, and two slashes in a row have an empty piece between them.
pub open spec fn pieces(text: Seq<char>) -> Seq<Seq<char>>
    decreases text.len(),
{
    if text.len() == 0 {
        seq![Seq::empty()]
    } else {
        let ahead = pieces(text.drop_last());
        if text.last() == '/' {
            ahead.push(Seq::empty())
        } else {
            ahead.drop_last().push(ahead.last().push(text.last()))
        }
    }
}

/// A piece that names something: it is not empty and not a single dot.
pub open spec fn is_name(piece: Seq<char>) -> bool {
    piece.len() > 0 && piece != "."@
}

/// The pieces that are names, in order.
pub open spec fn names_among(pieces: Seq<Seq<char>>) -> Seq<Seq<char>>
    decreases pieces.len(),
{
    if pieces.len() == 0 {
        Seq::empty()
    } else if is_name(pieces.last()) {
        names_among(pieces.drop_last()).push(pieces.last())
    } else {
        names_among(pieces.drop_last())
    }
}

/// The names of a path written as text, counted from the root: the pieces
/// between its slashes, without the empty ones and the single dots.
pub open spec fn path_names(text: Seq<char>) -> Seq<Seq<char>> {
    names_among(pieces(text))
}

/// The names, each with a slash ahead of it.
pub open spec fn slashed(names: Seq<Seq<char>>) -> Seq<char>
    decreases names.len(),
{
    if names.len() == 0 {
        Seq::empty()
    } else {
        slashed(names.drop_last()) + seq!['/'] + names.last()
    }
}

/// A path written as text: a slash for the root, else each name with a
/// slash ahead of it.
pub open spec fn path_text(names: Seq<Seq<char>>) -> Seq<char> {
    if names.len() == 0 {
        seq!['/']
    } else {
        slashed(names)
    }
}

/// A text always has at least one piece.
pub proof fn lemma_pieces_are_never_none(text: Seq<char>)
    ensures
        pieces(text).len() >= 1,
    decreases text.len(),
{
    if text.len() > 0 {
        lemma_pieces_are_never_none(text.drop_last());
    }
}

/// A name that can stand in a path: it is not empty, not a single dot, and
/// holds no slash.
pub open spec fn is_path_name(name: Seq<char>) -> bool {
    is_name(name) && forall|i: int| 0 <= i < name.len() ==> name[i] != '/'
}

/// Text without a slash, put behind a text, makes its last piece longer.
proof fn lemma_pieces_of_longer_text(text: Seq<char>, more: Seq<char>)
    requires
        forall|i: int| 0 <= i < more.len() ==> more[i] != '/',
    ensures
        pieces(text + more) == pieces(text).drop_last().push(pieces(text).last() + more),
    decreases more.len(),
{
    lemma_pieces_are_never_none(text);
    if more.len() == 0 {
        assert(text + more =~= text);
        assert(pieces(text).last() + more =~= pieces(text).last());
        assert(pieces(text).drop_last().push(pieces(text).last()) =~= pieces(text));
    } else {
        let shorter = more.drop_last();
        lemma_pieces_of_longer_text(text, shorter);
        assert((text + more).drop_last() =~= text + shorter);
        assert((text + more).last() == more.last());
        let ahead = pieces(text + shorter);
        assert(ahead.drop_last() =~= pieces(text).drop_last());
        assert(ahead.last().push(more.last()) =~= pieces(text).last() + more);
    }
}

/// The pieces of names that are written with a slash ahead of each are an
/// empty piece and then the names.
proof fn lemma_pieces_of_slashed_names(names: Seq<Seq<char>>)
    requires
        forall|i: int| 0 <= i < names.len() ==> is_path_name(#[trigger] names[i]),
    ensures
        pieces(slashed(names)) == seq![Seq::<char>::empty()] + names,
    decreases names.len(),
{
    if names.len() == 0 {
        assert(pieces(slashed(names)) =~= seq![Seq::<char>::empty()] + names);
    } else {
        let ahead = names.drop_last();
        let name = names.last();
        assert forall|i: int| 0 <= i < ahead.len() implies is_path_name(#[trigger] ahead[i]) by {
            assert(ahead[i] == names[i]);
        }
        lemma_pieces_of_slashed_names(ahead);
        let open = slashed(ahead) + seq!['/'];
        assert(open.drop_last() =~= slashed(ahead));
        assert(pieces(open) == pieces(slashed(ahead)).push(Seq::<char>::empty()));
        assert(is_path_name(name));
        lemma_pieces_of_longer_text(open, name);
        assert(pieces(open).drop_last() =~= pieces(slashed(ahead)));
        assert(Seq::<char>::empty() + name =~= name);
        assert(pieces(slashed(names)) =~= seq![Seq::<char>::empty()] + names);
    }
}

/// Among an empty piece and names, the names are the names.
proof fn lemma_names_among_names(names: Seq<Seq<char>>)
    requires
        forall|i: int| 0 <= i < names.len() ==> is_path_name(#[trigger] names[i]),
    ensures
        names_among(seq![Seq::<char>::empty()] + names) == names,
    decreases names.len(),
{
    let all = seq![Seq::<char>::empty()] + names;
    if names.len() == 0 {
        assert(all.drop_last() =~= Seq::<Seq<char>>::empty());
        assert(names_among(all.drop_last()) =~= Seq::<Seq<char>>::empty());
        assert(names_among(all) =~= names);
    } else {
        let ahead = names.drop_last();
        assert forall|i: int| 0 <= i < ahead.len() implies is_path_name(#[trigger] ahead[i]) by {
            assert(ahead[i] == names[i]);
        }
        lemma_names_among_names(ahead);
        assert(all.drop_last() =~= seq![Seq::<char>::empty()] + ahead);
        assert(all.last() == names.last());
        assert(is_path_name(names.last()));
        assert(names_among(all) =~= names);
    }
}

/// A path that is written as text and read back is the same path.
pub proof fn lemma_path_text_reads_back(names: Seq<Seq<char>>)
    requires
        forall|i: int| 0 <= i < names.len() ==> is_path_name(#[trigger] names[i]),
    ensures
        path_names(path_text(names)) == names,
{
    if names.len() == 0 {
        let text = seq!['/'];
        let none = Seq::<char>::empty();
        assert(text.drop_last() =~= none);
        assert(pieces(none) =~= seq![none]);
        assert(pieces(text) =~= seq![none, none]);
        let both = pieces(text);
        let one = both.drop_last();
        assert(one =~= seq![none]);
        assert(one.drop_last() =~= Seq::<Seq<char>>::empty());
        assert(names_among(one.drop_last()) =~= Seq::<Seq<char>>::empty());
        assert(!is_name(one.last()));
        assert(names_among(one) =~= Seq::<Seq<char>>::empty());
        assert(!is_name(both.last()));
        assert(names_among(both) =~= names);
    } else {
        lemma_pieces_of_slashed_names(names);
        lemma_names_among_names(names);
    }
}

/// An absolute path: the names that lead from the root to a directory. The
/// root itself has no names.
#[derive(Debug)]
pub struct PanelPath {
    names: Vec<String>,
}

impl View for PanelPath {
    type V = Seq<Seq<char>>;

    closed spec fn view(&self) -> Seq<Seq<char>> {
        Seq::new(self.names.len() as nat, |i: int| self.names[i]@)
    }
}

impl PanelPath {
    /// The root.
    pub fn root() -> (r: PanelPath)
        ensures
            r@ == Seq::<Seq<char>>::empty(),
    {
        let r = PanelPath { names: Vec::new() };
        assert(r@ =~= Seq::<Seq<char>>::empty());
        r
    }

    /// Whether the path is the root.
    pub fn is_root(&self) -> (r: bool)
        ensures
            r == (self@.len() == 0),
    {
        self.names.len() == 0
    }

    /// How many names the path has.
    pub fn depth(&self) -> (r: usize)
        ensures
            r == self@.len(),
    {
        self.names.len()
    }

    /// A copy of the path.
    pub fn duplicate(&self) -> (r: PanelPath)
        ensures
            r@ == self@,
    {
        let r = self.ancestor(self.names.len());
        assert(self@.take(self@.len() as int) =~= self@);
        r
    }

    /// The path made of the first `depth` names, or the whole path if it
    /// has no more than that.
    pub fn ancestor(&self, depth: usize) -> (r: PanelPath)
        ensures
            depth <= self@.len() ==> r@ == self@.take(depth as int),
            depth > self@.len() ==> r@ == self@,
    {
        let depth = if depth > self.names.len() {
            self.names.len()
        } else {
            depth
        };
        assert(self@.take(self@.len() as int) =~= self@);
        let mut names: Vec<String> = Vec::new();
        let mut i: usize = 0;
        while i < depth
            invariant
                i <= depth <= self.names.len(),
                names.len() == i,
                forall|k: int| 0 <= k < i ==> (#[trigger] names[k])@ == self.names[k]@,
            decreases depth - i,
        {
            names.push(self.names[i].clone());
            i += 1;
        }
        let r = PanelPath { names };
        assert(r@ =~= self@.take(depth as int));
        r
    }

    /// The directory that holds this one; the root has none.
    pub fn parent(&self) -> (r: Option<PanelPath>)
        ensures
            self@.len() == 0 ==> r is None,
            self@.len() > 0 ==> r is Some && r->0@ == self@.drop_last(),
    {
        if self.names.len() == 0 {
            None
        } else {
            let r = self.ancestor(self.names.len() - 1);
            assert(self@.take(self@.len() - 1) =~= self@.drop_last());
            Some(r)
        }
    }

    /// The last name of the path; the root has none.
    pub fn file_name(&self) -> (r: Option<String>)
        ensures
            self@.len() == 0 ==> r is None,
            self@.len() > 0 ==> r is Some && r->0@ == self@.last(),
    {
        if self.names.len() == 0 {
            None
        } else {
            Some(self.names[self.names.len() - 1].clone())
        }
    }

    /// Goes one name deeper.
    pub fn push(&mut self, name: &str)
        ensures
            final(self)@ == old(self)@.push(name@),
    {
        self.names.push(name.to_owned());
        assert(self@ =~= old(self)@.push(name@));
    }

    /// The path one name deeper.
    pub fn join(&self, name: &str) -> (r: PanelPath)
        ensures
            r@ == self@.push(name@),
    {
        let mut r = self.duplicate();
        r.push(name);
        r
    }

    /// Whether the two paths are the same.
    pub fn same_as(&self, other: &PanelPath) -> (r: bool)
        ensures
            r == (self@ == other@),
    {
        if self.names.len() != other.names.len() {
            assert(self@.len() != other@.len());
            return false;
        }
        let mut i: usize = 0;
        while i < self.names.len()
            invariant
                i <= self.names.len(),
                self.names.len() == other.names.len(),
                forall|k: int| 0 <= k < i ==> self.names[k]@ == other.names[k]@,
            decreases self.names.len() - i,
        {
            if !same_text(self.names[i].as_str(), other.names[i].as_str()) {
                assert(self@[i as int] != other@[i as int]);
                return false;
            }
            i += 1;
        }
        assert(self@ =~= other@);
        true
    }

    /// The path written as text.
    pub fn display(&self) -> (r: String)
        ensures
            r@ == path_text(self@),
    {
        if self.names.len() == 0 {
            let mut out = String::new();
            push_char(&mut out, '/');
            assert(out@ =~= seq!['/']);
            return out;
        }
        let mut out = String::new();
        let mut i: usize = 0;
        assert(self@.take(0) =~= Seq::<Seq<char>>::empty());
        while i < self.names.len()
            invariant
                i <= self.names.len(),
                out@ == slashed(self@.take(i as int)),
            decreases self.names.len() - i,
        {
            let ghost ahead = out@;
            push_char(&mut out, '/');
            out.append(self.names[i].as_str());
            proof {
                let now = self@.take(i + 1);
                assert(now.drop_last() =~= self@.take(i as int));
                assert(now.last() == self.names[i as int]@);
                assert(out@ =~= ahead + seq!['/'] + self.names[i as int]@);
            }
            i += 1;
        }
        assert(self@.take(self@.len() as int) =~= self@);
        out
    }

    /// Reads a path written as text. Empty pieces and single dots are passed
    /// over, so `/a//b/./c/` reads as `/a/b/c`. The text is taken from the
    /// root, whether it starts with a slash or not.
    pub fn parse(text: &str) -> (r: PanelPath)
        ensures
            r@ == path_names(text@),
    {
        let mut names: Vec<String> = Vec::new();
        let mut piece = String::new();
        let ghost mut done: Seq<Seq<char>> = Seq::empty();
        for c in it: text.chars()
            invariant
                it.seq() == text@,
                done == Seq::new(names.len() as nat, |i: int| names[i]@),
                done == names_among(pieces(text@.take(it.index() as int)).drop_last()),
                piece@ == pieces(text@.take(it.index() as int)).last(),
        {
            proof {
                let ahead = text@.take(it.index() as int);
                let now = text@.take(it.index() + 1);
                lemma_pieces_are_never_none(ahead);
                assert(now.drop_last() =~= ahead);
                assert(now.last() == c);
                if c == '/' {
                    assert(pieces(now).drop_last() =~= pieces(ahead));
                } else {
                    assert(pieces(now).drop_last() =~= pieces(ahead).drop_last());
                }
            }
            if c == '/' {
                if !piece.as_str().is_empty() && !same_text(piece.as_str(), ".") {
                    names.push(piece);
                    proof {
                        done = done.push(piece@);
                    }
                }
                piece = String::new();
            } else {
                push_char(&mut piece, c);
            }
            assert(done =~= Seq::new(names.len() as nat, |i: int| names[i]@));
        }
        proof {
            assert(text@.take(text@.len() as int) =~= text@);
            lemma_pieces_are_never_none(text@);
        }
        if !piece.as_str().is_empty() && !same_text(piece.as_str(), ".") {
            names.push(piece);
            proof {
                done = done.push(piece@);
            }
        }
        let r = PanelPath { names };
        assert(r@ =~= done);
        r
    }
}

} // verus!
