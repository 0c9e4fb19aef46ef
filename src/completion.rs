//! Completion candidates and the rule that offers color names.
use vstd::prelude::*;

use crate::cursor::{first_group_word, has_group_word, is_group_word, CursorContext};
use crate::syntax::{
    is_child, is_color_reference, parent_of, ColorReference, SyntaxKind, SyntaxNode, TextRange,
};

verus! {

/// A proposed replacement: `label` would replace the text in `range`.
#[derive(Clone, Debug, PartialEq, Eq)]
pub struct CompletionItem {
    pub range: TextRange,
    pub label: String,
}

/// Collects the candidates of one completion request, in the order in which
/// they are offered.
pub struct CompletionBuilder {
    items: Vec<CompletionItem>,
}

impl View for CompletionBuilder {
    type V = Seq<CompletionItem>;

    closed spec fn view(&self) -> Seq<CompletionItem> {
        self.items@
    }
}

impl CompletionBuilder {
    pub fn new() -> (r: CompletionBuilder)
        ensures
            r@ == Seq::<CompletionItem>::empty(),
    {
        CompletionBuilder { items: Vec::new() }
    }

    /// Offers the color `name` as a replacement of the text in `range`.
    pub fn color(&mut self, range: TextRange, name: &String)
        ensures
            final(self)@ == old(self)@.push(CompletionItem { range, label: *name }),
    {
        self.items.push(CompletionItem { range, label: name.clone() });
    }

    /// The candidates collected so far.
    pub fn finish(self) -> (r: Vec<CompletionItem>)
        ensures
            r@ == self@,
    {
        self.items
    }
}

/// The group that holds the word under the caret has a color reference as
/// its parent.
pub open spec fn color_rule_applies(nodes: Seq<SyntaxNode>, offset: u32) -> bool {
    &&& has_group_word(nodes, offset)
    &&& match parent_of(nodes, first_group_word(nodes, offset)) {
        Some(g) => match parent_of(nodes, g) {
            Some(p) => is_color_reference(nodes, p),
            None => false,
        },
        None => false,
    }
}

/// Every color name, in its stored order, as a replacement of `range`.
pub open spec fn color_candidates(range: TextRange, colors: Seq<String>) -> Seq<CompletionItem> {
    colors.map_values(|c: String| CompletionItem { range, label: c })
}

/// What the color rule offers for the caret at `offset`: every color for the
/// word under the caret where the rule applies, nothing elsewhere.
pub open spec fn color_completions(
    nodes: Seq<SyntaxNode>,
    offset: u32,
    colors: Seq<String>,
) -> Seq<CompletionItem> {
    if color_rule_applies(nodes, offset) {
        color_candidates(nodes[first_group_word(nodes, offset)].range, colors)
    } else {
        Seq::empty()
    }
}

/// A run of the color rule that turned the candidates `before` into `after`
/// and returned `r`.
pub open spec fn color_rule_outcome(
    nodes: Seq<SyntaxNode>,
    offset: u32,
    colors: Seq<String>,
    before: Seq<CompletionItem>,
    after: Seq<CompletionItem>,
    r: Option<()>,
) -> bool {
    &&& r.is_some() == color_rule_applies(nodes, offset)
    &&& after == before + color_completions(nodes, offset, colors)
}

/// Offers every known color name where the caret stands in the argument of a
/// color reference. Returns `None`, and offers nothing, where it does not.
pub fn complete_colors(context: &CursorContext, builder: &mut CompletionBuilder) -> (r: Option<()>)
    ensures
        color_rule_outcome(
            context.tree@,
            context.offset,
            context.data.colors@,
            old(builder)@,
            final(builder)@,
            r,
        ),
{
    let (_, range, group) = match context.find_curly_group_word() {
        Some(found) => found,
        None => return None,
    };
    let parent = match context.tree.parent(group) {
        Some(p) => p,
        None => return None,
    };
    if ColorReference::cast(context.tree, parent).is_none() {
        return None;
    }
    let ghost start = builder@;
    let n = context.data.colors.len();
    let mut i: usize = 0;
    while i < n
        invariant
            n == context.data.colors@.len(),
            i <= n,
            builder@ == start + color_candidates(range, context.data.colors@.subrange(0, i as int)),
        decreases n - i,
    {
        builder.color(range, &context.data.colors[i]);
        proof {
            assert(context.data.colors@.subrange(0, i + 1) == context.data.colors@.subrange(
                0,
                i as int,
            ).push(context.data.colors@[i as int]));
        }
        i = i + 1;
    }
    assert(context.data.colors@.subrange(0, n as int) == context.data.colors@);
    Some(())
}

/// Where `w` is the one word under the caret that fills a curly group, the
/// first group word is `w`.
proof fn lemma_sole_group_word(nodes: Seq<SyntaxNode>, offset: u32, w: int)
    requires
        is_group_word(nodes, offset, w),
        forall|j: int| j != w ==> !#[trigger] is_group_word(nodes, offset, j),
    ensures
        has_group_word(nodes, offset),
        first_group_word(nodes, offset) == w,
{
    assert forall|j: int| 0 <= j < w implies !#[trigger] is_group_word(nodes, offset, j) by {}
}

/// Where the caret stands on the word that fills the argument of a color
/// reference, the rule offers exactly the stored color names, in their order,
/// each as a replacement of that word.
pub proof fn lemma_color_argument_offers_every_color(
    nodes: Seq<SyntaxNode>,
    offset: u32,
    colors: Seq<String>,
    w: int,
    g: int,
    p: int,
)
    requires
        is_group_word(nodes, offset, w),
        forall|j: int| j != w ==> !#[trigger] is_group_word(nodes, offset, j),
        is_child(nodes, w, g),
        is_child(nodes, g, p),
        0 <= p < nodes.len(),
        nodes[p].kind == SyntaxKind::ColorReference,
    ensures
        color_rule_applies(nodes, offset),
        color_completions(nodes, offset, colors).len() == colors.len(),
        forall|i: int|
            0 <= i < colors.len() ==> #[trigger] color_completions(nodes, offset, colors)[i]
                == (CompletionItem { range: nodes[w].range, label: colors[i] }),
{
    lemma_sole_group_word(nodes, offset, w);
}

/// Where the caret stands on the word that fills a curly group whose parent is
/// not a color reference, the rule offers nothing.
pub proof fn lemma_other_group_offers_nothing(
    nodes: Seq<SyntaxNode>,
    offset: u32,
    colors: Seq<String>,
    w: int,
    g: int,
)
    requires
        is_group_word(nodes, offset, w),
        forall|j: int| j != w ==> !#[trigger] is_group_word(nodes, offset, j),
        is_child(nodes, w, g),
        match parent_of(nodes, g) {
            Some(p) => !is_color_reference(nodes, p),
            None => true,
        },
    ensures
        !color_rule_applies(nodes, offset),
        color_completions(nodes, offset, colors) == Seq::<CompletionItem>::empty(),
{
    lemma_sole_group_word(nodes, offset, w);
}

/// Where no word under the caret is the sole content of a curly group (the
/// caret is outside every group, or its group holds more than one node), the
/// rule offers nothing.
pub proof fn lemma_no_group_word_offers_nothing(
    nodes: Seq<SyntaxNode>,
    offset: u32,
    colors: Seq<String>,
)
    requires
        forall|w: int|
            0 <= w < nodes.len() && nodes[w].kind == SyntaxKind::Word
                && #[trigger] nodes[w].range.touches(offset) ==> match parent_of(nodes, w) {
                Some(g) => !(0 <= g < nodes.len() && nodes[g].kind == SyntaxKind::CurlyGroup)
                    || exists|j: int| 0 <= j < nodes.len() && j != w && #[trigger] is_child(nodes, j, g),
                None => true,
            },
    ensures
        !color_rule_applies(nodes, offset),
        color_completions(nodes, offset, colors) == Seq::<CompletionItem>::empty(),
{
    assert forall|w: int| !#[trigger] is_group_word(nodes, offset, w) by {
        if is_group_word(nodes, offset, w) {
            assert(nodes[w].range.touches(offset));
        }
    }
}

/// Two runs of the rule on the same context, each into a fresh collector,
/// collect the same candidates in the same order and return the same result.
pub proof fn lemma_color_rule_is_deterministic(
    nodes: Seq<SyntaxNode>,
    offset: u32,
    colors: Seq<String>,
    first: Seq<CompletionItem>,
    first_result: Option<()>,
    second: Seq<CompletionItem>,
    second_result: Option<()>,
)
    requires
        color_rule_outcome(nodes, offset, colors, Seq::empty(), first, first_result),
        color_rule_outcome(nodes, offset, colors, Seq::empty(), second, second_result),
    ensures
        first == second,
        first_result == second_result,
{
}

/// Wherever the rule applies, the labels it offers are the stored color names
/// in their stored order, whatever the caret's position.
pub proof fn lemma_labels_keep_stored_order(
    nodes: Seq<SyntaxNode>,
    colors: Seq<String>,
    offset: u32,
    other_offset: u32,
)
    requires
        color_rule_applies(nodes, offset),
        color_rule_applies(nodes, other_offset),
    ensures
        color_completions(nodes, offset, colors).map_values(|c: CompletionItem| c.label) == colors,
        color_completions(nodes, offset, colors).map_values(|c: CompletionItem| c.label)
            == color_completions(nodes, other_offset, colors).map_values(
            |c: CompletionItem| c.label,
        ),
{
    assert(color_completions(nodes, offset, colors).map_values(|c: CompletionItem| c.label)
        =~= colors);
    assert(color_completions(nodes, other_offset, colors).map_values(|c: CompletionItem| c.label)
        =~= colors);
}

} // verus!
