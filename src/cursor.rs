//! Where the caret stands in the syntax tree.
use vstd::prelude::*;

use crate::language::LanguageData;
use crate::syntax::{is_sole_child, parent_of, SyntaxKind, SyntaxNode, SyntaxTree, TextRange};

verus! {

/// Node `w` is a word that the caret at `offset` touches, and it is the sole
/// child of a curly group.
pub open spec fn is_group_word(nodes: Seq<SyntaxNode>, offset: u32, w: int) -> bool {
    &&& 0 <= w < nodes.len()
    &&& nodes[w].kind == SyntaxKind::Word
    &&& nodes[w].range.touches(offset)
    &&& match parent_of(nodes, w) {
        Some(g) => {
            &&& 0 <= g < nodes.len()
            &&& nodes[g].kind == SyntaxKind::CurlyGroup
            &&& is_sole_child(nodes, w, g)
        },
        None => false,
    }
}

/// Some node is a group word at `offset`.
pub open spec fn has_group_word(nodes: Seq<SyntaxNode>, offset: u32) -> bool {
    exists|w: int| #[trigger] is_group_word(nodes, offset, w)
}

/// The earliest node of the tree that is a group word at `offset`.
pub open spec fn first_group_word(nodes: Seq<SyntaxNode>, offset: u32) -> int {
    choose|w: int|
        is_group_word(nodes, offset, w) && forall|j: int|
            0 <= j < w ==> !#[trigger] is_group_word(nodes, offset, j)
}

/// Where a caret in a document is, and what the completion rules may consult.
pub struct CursorContext<'a> {
    pub tree: &'a SyntaxTree,
    pub offset: u32,
    pub data: &'a LanguageData,
}

/// Among nodes that are group words at `offset`, there is an earliest one.
proof fn lemma_first_group_word(nodes: Seq<SyntaxNode>, offset: u32, w: int)
    requires
        is_group_word(nodes, offset, w),
    ensures
        is_group_word(nodes, offset, first_group_word(nodes, offset)),
        forall|j: int|
            0 <= j < first_group_word(nodes, offset) ==> !#[trigger] is_group_word(
                nodes,
                offset,
                j,
            ),
    decreases w,
{
    if exists|j: int| 0 <= j < w && #[trigger] is_group_word(nodes, offset, j) {
        let j = choose|j: int| 0 <= j < w && #[trigger] is_group_word(nodes, offset, j);
        lemma_first_group_word(nodes, offset, j);
    }
}

impl<'a> CursorContext<'a> {
    pub fn new(tree: &'a SyntaxTree, offset: u32, data: &'a LanguageData) -> (r: CursorContext<'a>)
        ensures
            r.tree == tree,
            r.offset == offset,
            r.data == data,
    {
        CursorContext { tree, offset, data }
    }

    /// Finds the word under the caret that is the sole content of a curly
    /// group, and returns the word's node, its range and the group's node.
    /// Where several words qualify, the earliest in the tree is taken.
    pub fn find_curly_group_word(&self) -> (r: Option<(usize, TextRange, usize)>)
        ensures
            r.is_none() <==> !has_group_word(self.tree@, self.offset),
            match r {
                Some((w, range, g)) => {
                    &&& w as int == first_group_word(self.tree@, self.offset)
                    &&& range == self.tree@[w as int].range
                    &&& parent_of(self.tree@, w as int) == Some(g as int)
                },
                None => true,
            },
    {
        let n = self.tree.len();
        let mut w: usize = 0;
        while w < n
            invariant
                n == self.tree@.len(),
                w <= n,
                forall|j: int| 0 <= j < w ==> !#[trigger] is_group_word(self.tree@, self.offset, j),
            decreases n - w,
        {
            let node = self.tree.node(w);
            if node.kind == SyntaxKind::Word && node.range.contains_inclusive(self.offset) {
                if let Some(g) = self.tree.parent(w) {
                    if g < n && self.tree.node(g).kind == SyntaxKind::CurlyGroup
                        && self.tree.is_sole_child(w, g) {
                        proof {
                            lemma_first_group_word(self.tree@, self.offset, w as int);
                            // No earlier node qualifies, and `w` does, so the
                            // earliest that qualifies is `w`.
                            assert(is_group_word(self.tree@, self.offset, w as int));
                            assert(first_group_word(self.tree@, self.offset) >= w);
                        }
                        return Some((w, node.range, g));
                    }
                }
            }
            assert(!is_group_word(self.tree@, self.offset, w as int));
            w = w + 1;
        }
        None
    }
}

} // verus!
