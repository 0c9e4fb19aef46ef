//! Color-name completion for LaTeX documents.
//!
//! The library decides, from a caret offset in a parsed document, whether the
//! caret sits in the argument of a color reference (`\color{...}` and kin),
//! and if so offers every known color name as a candidate that replaces the
//! word under the caret.
use vstd::prelude::*;

pub mod completion;
pub mod cursor;
pub mod language;
pub mod syntax;

pub use completion::{complete_colors, CompletionBuilder, CompletionItem};
pub use cursor::CursorContext;
pub use language::LanguageData;
pub use syntax::{ColorReference, SyntaxKind, SyntaxNode, SyntaxTree, TextRange};
