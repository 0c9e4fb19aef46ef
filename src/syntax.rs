//! A parsed document as a tree of nodes kept in an arena.
//!
//! Each node knows its kind, its text range and its parent. A node's parent
//! always stands earlier in the arena, so the parent links form a forest and
//! the first node pushed without a parent is the root. The children of a node
//! are the nodes whose parent it is. The braces of a curly group are not held
//! as nodes: the group's range covers them, and its children are what stands
//! between them.
use vstd::prelude::*;

verus! {

/// A half-open interval `[start, end)` of offsets into the document's text.
#[derive(Clone, Copy, Debug, PartialEq, Eq, Structural)]
pub struct TextRange {
    pub start: u32,
    pub end: u32,
}

impl TextRange {
    /// A range holds its start no later than its end.
    pub open spec fn wf(&self) -> bool {
        self.start <= self.end
    }

    /// The caret at `offset` touches the range: it stands within it or at
    /// either of its ends.
    pub open spec fn touches(&self, offset: u32) -> bool {
        self.start <= offset <= self.end
    }

    pub fn new(start: u32, end: u32) -> (r: TextRange)
        requires
            start <= end,
        ensures
            r.start == start,
            r.end == end,
            r.wf(),
    {
        TextRange { start, end }
    }

    pub fn contains_inclusive(&self, offset: u32) -> (r: bool)
        ensures
            r == self.touches(offset),
    {
        self.start <= offset && offset <= self.end
    }
}

/// The shapes of node that the completion rules tell apart.
#[derive(Clone, Copy, Debug, PartialEq, Eq, Structural)]
pub enum SyntaxKind {
    /// The whole document.
    Root,
    /// A command that names a color in its argument (`\color`, `\textcolor`,
    /// `\colorbox`, ...).
    ColorReference,
    /// Any other command with arguments (`\section`, `\label`, ...).
    Command,
    /// The name of a command, such as `\color`.
    CommandName,
    /// A `{...}` argument.
    CurlyGroup,
    /// A `[...]` argument.
    BrackGroup,
    /// A run of word characters.
    Word,
    /// Spaces and line breaks.
    Whitespace,
    /// A punctuation character.
    Punct,
    /// Plain text or any node that no rule looks into.
    Text,
}

/// One node of the tree.
#[derive(Clone, Copy, Debug, PartialEq, Eq, Structural)]
pub struct SyntaxNode {
    pub kind: SyntaxKind,
    pub range: TextRange,
    pub parent: Option<usize>,
}

/// A document's syntax tree.
pub struct SyntaxTree {
    nodes: Vec<SyntaxNode>,
}

impl View for SyntaxTree {
    type V = Seq<SyntaxNode>;

    closed spec fn view(&self) -> Seq<SyntaxNode> {
        self.nodes@
    }
}

/// Every parent link points to an earlier node and every range is well formed.
pub open spec fn tree_wf(nodes: Seq<SyntaxNode>) -> bool {
    forall|i: int|
        0 <= i < nodes.len() ==> {
            &&& (#[trigger] nodes[i]).range.wf()
            &&& match nodes[i].parent {
                Some(p) => p < i,
                None => true,
            }
        }
}

/// The parent of node `i`, where `i` is a node that has one.
pub open spec fn parent_of(nodes: Seq<SyntaxNode>, i: int) -> Option<int> {
    if 0 <= i < nodes.len() {
        match nodes[i].parent {
            Some(p) => Some(p as int),
            None => None,
        }
    } else {
        None
    }
}

/// Node `c` is a child of node `g`.
pub open spec fn is_child(nodes: Seq<SyntaxNode>, c: int, g: int) -> bool {
    parent_of(nodes, c) == Some(g)
}

/// Node `w` is the one and only child of node `g`.
pub open spec fn is_sole_child(nodes: Seq<SyntaxNode>, w: int, g: int) -> bool {
    &&& is_child(nodes, w, g)
    &&& forall|j: int| 0 <= j < nodes.len() && j != w ==> !#[trigger] is_child(nodes, j, g)
}

/// Node `i` is a color reference.
pub open spec fn is_color_reference(nodes: Seq<SyntaxNode>, i: int) -> bool {
    0 <= i < nodes.len() && nodes[i].kind == SyntaxKind::ColorReference
}

/// A node known to be a color reference.
#[derive(Clone, Copy, Debug, PartialEq, Eq, Structural)]
pub struct ColorReference {
    pub node: usize,
}

impl ColorReference {
    /// Classifies node `i` of `tree`: a color reference, or nothing.
    pub fn cast(tree: &SyntaxTree, i: usize) -> (r: Option<ColorReference>)
        ensures
            r.is_some() <==> is_color_reference(tree@, i as int),
            r matches Some(c) ==> c.node == i,
    {
        if i < tree.nodes.len() && tree.nodes[i].kind == SyntaxKind::ColorReference {
            Some(ColorReference { node: i })
        } else {
            None
        }
    }
}

impl SyntaxTree {
    pub open spec fn wf(&self) -> bool {
        tree_wf(self@)
    }

    /// An empty tree, to be filled by `push` in pre-order.
    pub fn new() -> (r: SyntaxTree)
        ensures
            r@ == Seq::<SyntaxNode>::empty(),
            r.wf(),
    {
        SyntaxTree { nodes: Vec::new() }
    }

    /// Adds a node under `parent` (or as a root) and returns its index.
    pub fn push(&mut self, kind: SyntaxKind, range: TextRange, parent: Option<usize>) -> (r: usize)
        requires
            old(self).wf(),
            range.wf(),
            old(self)@.len() < usize::MAX,
            match parent {
                Some(p) => p < old(self)@.len(),
                None => true,
            },
        ensures
            final(self).wf(),
            r == old(self)@.len(),
            final(self)@ == old(self)@.push(SyntaxNode { kind, range, parent }),
    {
        let r = self.nodes.len();
        self.nodes.push(SyntaxNode { kind, range, parent });
        r
    }

    pub fn len(&self) -> (r: usize)
        ensures
            r == self@.len(),
    {
        self.nodes.len()
    }

    pub fn node(&self, i: usize) -> (r: SyntaxNode)
        requires
            i < self@.len(),
        ensures
            r == self@[i as int],
    {
        self.nodes[i]
    }

    /// The parent of node `i`, if it has one and `i` is a node of the tree.
    pub fn parent(&self, i: usize) -> (r: Option<usize>)
        ensures
            match r {
                Some(p) => parent_of(self@, i as int) == Some(p as int),
                None => parent_of(self@, i as int).is_none(),
            },
    {
        if i < self.nodes.len() {
            self.nodes[i].parent
        } else {
            None
        }
    }

    /// Whether node `w` is the only child of node `g`.
    pub fn is_sole_child(&self, w: usize, g: usize) -> (r: bool)
        ensures
            r == is_sole_child(self@, w as int, g as int),
    {
        if w >= self.nodes.len() || self.nodes[w].parent != Some(g) {
            return false;
        }
        let n = self.nodes.len();
        let mut j: usize = 0;
        while j < n
            invariant
                n == self@.len(),
                j <= n,
                forall|k: int| 0 <= k < j && k != w ==> !#[trigger] is_child(self@, k, g as int),
            decreases n - j,
        {
            if j != w && self.nodes[j].parent == Some(g) {
                assert(is_child(self@, j as int, g as int));
                return false;
            }
            j = j + 1;
        }
        true
    }
}

} // verus!
