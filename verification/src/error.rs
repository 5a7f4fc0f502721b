//! Errors of decoding and of queries on a decoded score.
use vstd::prelude::*;

verus! {

/// What an integrity rule found wrong.
#[derive(Clone, Copy, Debug, PartialEq, Eq, Structural)]
pub enum IntegrityFault {
    /// A part body names an id that the part list does not declare exactly
    /// once.
    UnresolvedPartId,
    /// A measure holds no attributes block, or more than one.
    AmbiguousAttributes,
}

/// The kinds of error.
#[derive(Clone, Copy, Debug, PartialEq, Eq, Structural)]
pub enum ErrorKind {
    /// An element whose tag is unknown where it stands.
    StructuralError,
    /// A known element whose attributes, children or text have the wrong
    /// shape.
    SchemaMismatch,
    /// A field without a default is absent.
    MissingRequiredField,
    /// A cross-reference does not resolve.
    IntegrityError(IntegrityFault),
    /// A backup would move the cursor of a measure below zero.
    CursorError,
}

/// An error of decoding, with the tags of the elements from the decoded
/// element down to the one at fault.
#[derive(Debug)]
pub struct DecodeError {
    pub kind: ErrorKind,
    pub path: Vec<String>,
}

/// The mathematical value of a [`DecodeError`].
pub struct DecodeErrorView {
    pub kind: ErrorKind,
    pub path: Seq<Seq<char>>,
}

impl DeepView for DecodeError {
    type V = DecodeErrorView;

    open spec fn deep_view(&self) -> DecodeErrorView {
        DecodeErrorView { kind: self.kind, path: self.path.deep_view() }
    }
}

impl DecodeErrorView {
    /// An error at the element with the given tag.
    pub open spec fn at(kind: ErrorKind, tag: Seq<char>) -> DecodeErrorView {
        DecodeErrorView { kind, path: seq![tag] }
    }

    /// The same error, seen from the parent element with the given tag.
    pub open spec fn under(self, tag: Seq<char>) -> DecodeErrorView {
        DecodeErrorView { kind: self.kind, path: seq![tag] + self.path }
    }
}

impl DecodeError {
    /// An error at the element with the given tag.
    pub fn at(kind: ErrorKind, tag: &str) -> (r: DecodeError)
        ensures
            r.deep_view() == DecodeErrorView::at(kind, tag@),
    {
        let mut path: Vec<String> = Vec::new();
        path.push(tag.to_owned());
        let r = DecodeError { kind, path };
        assert(r.path.deep_view() =~= seq![tag@]);
        r
    }

    /// The same error, seen from the parent element with the given tag.
    pub fn under(self, tag: &str) -> (r: DecodeError)
        ensures
            r.deep_view() == self.deep_view().under(tag@),
    {
        let mut path = self.path;
        let ghost before = path.deep_view();
        path.insert(0, tag.to_owned());
        let r = DecodeError { kind: self.kind, path };
        assert(r.path.deep_view() =~= seq![tag@] + before);
        r
    }

    /// The path as one text, its tags joined by `/`.
    pub fn location(&self) -> (r: String)
        ensures
            r@ == joined(self.deep_view().path),
    {
        let ghost path = self.path.deep_view();
        let mut out = String::new();
        let mut i: usize = 0;
        proof {
            assert(path.subrange(0, 0) =~= Seq::empty());
        }
        while i < self.path.len()
            invariant
                i <= self.path.len(),
                path == self.path.deep_view(),
                path.len() == self.path.len(),
                out@ == joined(path.subrange(0, i as int)),
            decreases self.path.len() - i,
        {
            proof {
                reveal_strlit("/");
                assert(path.subrange(0, i + 1).drop_last() =~= path.subrange(0, i as int));
                assert(path.subrange(0, i + 1).last() == self.path[i as int]@);
            }
            if i > 0 {
                out.append("/");
            }
            out.append(self.path[i].as_str());
            proof {
                if i == 0 {
                    assert(out@ =~= path.subrange(0, 1)[0]);
                } else {
                    assert(out@ =~= joined(path.subrange(0, i as int)) + seq!['/']
                        + self.path[i as int]@);
                }
            }
            i = i + 1;
        }
        proof {
            assert(path.subrange(0, i as int) =~= path);
        }
        out
    }
}

/// The tags of a path as one text, joined by `/`.
pub open spec fn joined(path: Seq<Seq<char>>) -> Seq<char>
    decreases path.len(),
{
    if path.len() == 0 {
        Seq::empty()
    } else if path.len() == 1 {
        path[0]
    } else {
        joined(path.drop_last()) + seq!['/'] + path.last()
    }
}

} // verus!
