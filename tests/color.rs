use texcolor::{
    complete_colors, ColorReference, CompletionBuilder, CompletionItem, CursorContext,
    LanguageData, SyntaxKind, SyntaxTree, TextRange,
};

fn knowledge_base() -> LanguageData {
    LanguageData::new(vec!["red".to_string(), "blue".to_string(), "black".to_string()])
}

/// `\<command>{red}` with `command` of `name_len` characters, the backslash
/// included; the command node has kind `kind`.
fn command_with_word(kind: SyntaxKind, name_len: u32) -> SyntaxTree {
    let end = name_len + 5;
    let mut tree = SyntaxTree::new();
    let root = tree.push(SyntaxKind::Root, TextRange::new(0, end), None);
    let command = tree.push(kind, TextRange::new(0, end), Some(root));
    tree.push(SyntaxKind::CommandName, TextRange::new(0, name_len), Some(command));
    let group = tree.push(SyntaxKind::CurlyGroup, TextRange::new(name_len, end), Some(command));
    tree.push(SyntaxKind::Word, TextRange::new(name_len + 1, name_len + 4), Some(group));
    tree
}

/// `\color{red}`
fn color_red() -> SyntaxTree {
    command_with_word(SyntaxKind::ColorReference, 6)
}

fn run(tree: &SyntaxTree, offset: u32, data: &LanguageData) -> (Option<()>, Vec<CompletionItem>) {
    let context = CursorContext::new(tree, offset, data);
    let mut builder = CompletionBuilder::new();
    let r = complete_colors(&context, &mut builder);
    (r, builder.finish())
}

fn item(start: u32, end: u32, label: &str) -> CompletionItem {
    CompletionItem { range: TextRange::new(start, end), label: label.to_string() }
}

#[test]
fn scenario_color_argument_offers_all_colors() {
    let data = knowledge_base();
    let tree = color_red();
    let (r, items) = run(&tree, 8, &data);
    assert_eq!(r, Some(()));
    assert_eq!(items, vec![item(7, 10, "red"), item(7, 10, "blue"), item(7, 10, "black")]);
}

#[test]
fn scenario_section_argument_offers_nothing() {
    let data = knowledge_base();
    let tree = command_with_word(SyntaxKind::Command, 8);
    let (r, items) = run(&tree, 10, &data);
    assert_eq!(r, None);
    assert!(items.is_empty());
}

#[test]
fn scenario_empty_braces_offer_nothing() {
    let data = knowledge_base();
    let mut tree = SyntaxTree::new();
    let root = tree.push(SyntaxKind::Root, TextRange::new(0, 8), None);
    let command = tree.push(SyntaxKind::ColorReference, TextRange::new(0, 8), Some(root));
    tree.push(SyntaxKind::CommandName, TextRange::new(0, 6), Some(command));
    tree.push(SyntaxKind::CurlyGroup, TextRange::new(6, 8), Some(command));
    let (r, items) = run(&tree, 7, &data);
    assert_eq!(r, None);
    assert!(items.is_empty());
}

#[test]
fn caret_at_either_end_of_word_is_inside() {
    let data = knowledge_base();
    let tree = color_red();
    for offset in [7, 10] {
        let (r, items) = run(&tree, offset, &data);
        assert_eq!(r, Some(()));
        assert_eq!(items.len(), 3);
        assert_eq!(items[0], item(7, 10, "red"));
    }
}

#[test]
fn caret_outside_any_group_offers_nothing() {
    let data = knowledge_base();
    let tree = color_red();
    for offset in [0, 3, 11, 40] {
        let (r, items) = run(&tree, offset, &data);
        assert_eq!(r, None);
        assert!(items.is_empty());
    }
}

#[test]
fn group_with_several_tokens_offers_nothing() {
    // `\color{red blue}`
    let data = knowledge_base();
    let mut tree = SyntaxTree::new();
    let root = tree.push(SyntaxKind::Root, TextRange::new(0, 16), None);
    let command = tree.push(SyntaxKind::ColorReference, TextRange::new(0, 16), Some(root));
    tree.push(SyntaxKind::CommandName, TextRange::new(0, 6), Some(command));
    let group = tree.push(SyntaxKind::CurlyGroup, TextRange::new(6, 16), Some(command));
    tree.push(SyntaxKind::Word, TextRange::new(7, 10), Some(group));
    tree.push(SyntaxKind::Whitespace, TextRange::new(10, 11), Some(group));
    tree.push(SyntaxKind::Word, TextRange::new(11, 15), Some(group));
    for offset in [8, 12] {
        let (r, items) = run(&tree, offset, &data);
        assert_eq!(r, None);
        assert!(items.is_empty());
    }
}

#[test]
fn word_in_nested_group_of_color_offers_nothing() {
    // `\color{{red}}`: the word's group is a child of a group, not of the command
    let data = knowledge_base();
    let mut tree = SyntaxTree::new();
    let root = tree.push(SyntaxKind::Root, TextRange::new(0, 13), None);
    let command = tree.push(SyntaxKind::ColorReference, TextRange::new(0, 13), Some(root));
    tree.push(SyntaxKind::CommandName, TextRange::new(0, 6), Some(command));
    let outer = tree.push(SyntaxKind::CurlyGroup, TextRange::new(6, 13), Some(command));
    let inner = tree.push(SyntaxKind::CurlyGroup, TextRange::new(7, 12), Some(outer));
    tree.push(SyntaxKind::Word, TextRange::new(8, 11), Some(inner));
    let (r, items) = run(&tree, 9, &data);
    assert_eq!(r, None);
    assert!(items.is_empty());
}

#[test]
fn two_runs_with_fresh_collectors_agree() {
    let data = knowledge_base();
    let tree = color_red();
    let first = run(&tree, 9, &data);
    let second = run(&tree, 9, &data);
    assert_eq!(first, second);
    let tree = command_with_word(SyntaxKind::Command, 8);
    assert_eq!(run(&tree, 10, &data), run(&tree, 10, &data));
}

#[test]
fn labels_follow_stored_order_at_every_caret() {
    let data = LanguageData::new(vec![
        "yellow".to_string(),
        "black".to_string(),
        "black".to_string(),
        "blue".to_string(),
    ]);
    let tree = color_red();
    for offset in [7, 8, 9, 10] {
        let (_, items) = run(&tree, offset, &data);
        let labels: Vec<&str> = items.iter().map(|i| i.label.as_str()).collect();
        assert_eq!(labels, vec!["yellow", "black", "black", "blue"]);
        assert!(items.iter().all(|i| i.range == TextRange::new(7, 10)));
    }
}

#[test]
fn empty_knowledge_base_applies_with_no_candidates() {
    let data = LanguageData::new(Vec::new());
    let tree = color_red();
    let (r, items) = run(&tree, 8, &data);
    assert_eq!(r, Some(()));
    assert!(items.is_empty());
}

#[test]
fn candidates_follow_earlier_ones_in_collector() {
    let data = knowledge_base();
    let tree = color_red();
    let context = CursorContext::new(&tree, 8, &data);
    let mut builder = CompletionBuilder::new();
    let earlier = "green".to_string();
    builder.color(TextRange::new(1, 2), &earlier);
    assert_eq!(complete_colors(&context, &mut builder), Some(()));
    let items = builder.finish();
    assert_eq!(items.len(), 4);
    assert_eq!(items[0], item(1, 2, "green"));
    assert_eq!(items[3], item(7, 10, "black"));
}

#[test]
fn locator_finds_word_and_group() {
    let data = knowledge_base();
    let tree = color_red();
    let context = CursorContext::new(&tree, 9, &data);
    assert_eq!(context.find_curly_group_word(), Some((4, TextRange::new(7, 10), 3)));
    let context = CursorContext::new(&tree, 2, &data);
    assert_eq!(context.find_curly_group_word(), None);
}

#[test]
fn color_reference_cast_checks_kind() {
    let tree = color_red();
    assert_eq!(ColorReference::cast(&tree, 1), Some(ColorReference { node: 1 }));
    assert_eq!(ColorReference::cast(&tree, 0), None);
    assert_eq!(ColorReference::cast(&tree, 3), None);
    assert_eq!(ColorReference::cast(&tree, 99), None);
}

#[test]
fn tree_links_and_sole_child() {
    let tree = color_red();
    assert_eq!(tree.len(), 5);
    assert_eq!(tree.parent(4), Some(3));
    assert_eq!(tree.parent(0), None);
    assert_eq!(tree.parent(7), None);
    assert_eq!(tree.node(4).kind, SyntaxKind::Word);
    assert!(tree.is_sole_child(4, 3));
    assert!(!tree.is_sole_child(3, 1));
    assert!(!tree.is_sole_child(2, 1));
}

#[test]
fn range_contains_its_ends() {
    let r = TextRange::new(7, 10);
    assert!(r.contains_inclusive(7));
    assert!(r.contains_inclusive(10));
    assert!(!r.contains_inclusive(6));
    assert!(!r.contains_inclusive(11));
}
