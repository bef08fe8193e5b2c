//! Hierarchical namespace names.
use vstd::prelude::*;

verus! {

/// A namespace, by its name: one segment per level, outermost first, never
/// empty.
#[derive(Debug, Clone, PartialEq, Eq)]
pub struct NamespaceIdent {
    parts: Vec<String>,
}

/// A namespace name needs at least one segment.
#[derive(Debug, Clone, Copy, PartialEq, Eq, Structural)]
pub struct EmptyNamespace;

pub open spec fn segments(parts: Seq<String>) -> Seq<Seq<char>> {
    parts.map_values(|s: String| s@)
}

impl View for NamespaceIdent {
    type V = Seq<Seq<char>>;

    closed spec fn view(&self) -> Seq<Seq<char>> {
        segments(self.parts@)
    }
}

/// The enclosing namespace of `name`: all but its last segment, and none
/// where nothing would remain.
pub open spec fn parent_spec(name: Seq<Seq<char>>) -> Option<Seq<Seq<char>>> {
    if name.len() <= 1 {
        None
    } else {
        Some(name.drop_last())
    }
}

impl NamespaceIdent {
    pub fn from_vec(parts: Vec<String>) -> (r: Result<NamespaceIdent, EmptyNamespace>)
        ensures
            r is Ok <==> parts@.len() > 0,
            r is Ok ==> r->Ok_0@ == segments(parts@),
    {
        if parts.len() == 0 {
            Err(EmptyNamespace)
        } else {
            Ok(NamespaceIdent { parts })
        }
    }

    /// The segments, outermost first.
    pub fn inner(self) -> (r: Vec<String>)
        ensures
            segments(r@) == self@,
    {
        self.parts
    }
}

pub trait NamespaceIdentExt: Sized + View<V = Seq<Seq<char>>> {
    /// The enclosing namespace; a top-level namespace has none.
    fn parent(&self) -> (r: Option<NamespaceIdent>)
        ensures
            match r {
                Some(p) => parent_spec(self@) == Some(p@),
                None => parent_spec(self@) is None,
            },
    ;
}

impl NamespaceIdentExt for NamespaceIdent {
    fn parent(&self) -> (r: Option<NamespaceIdent>) {
        let n = self.parts.len();
        if n <= 1 {
            return None;
        }
        let mut name: Vec<String> = Vec::new();
        let mut i: usize = 0;
        while i < n - 1
            invariant
                n == self.parts@.len(),
                i <= n - 1,
                name@ == self.parts@.take(i as int),
            decreases n - 1 - i,
        {
            name.push(self.parts[i].clone());
            proof {
                assert(name@ =~= self.parts@.take(i + 1));
            }
            i = i + 1;
        }
        assert(segments(name@) =~= self@.drop_last());
        match NamespaceIdent::from_vec(name) {
            Ok(ident) => Some(ident),
            Err(_) => None,
        }
    }
}

} // verus!
