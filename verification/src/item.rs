//! The final completion item handed to the presentation layer.

use vstd::prelude::*;

verus! {

/// The stable kind tag of a completion item, consumed by the presentation
/// layer (icon selection and the like).
#[derive(Clone, Copy, Debug, PartialEq, Eq, Structural)]
pub enum CompletionItemKind {
    Table,
    Column,
    Function,
    Schema,
}

/// Mathematical image of a [`CompletionItem`].
pub ghost struct CompletionItemView {
    pub label: Seq<char>,
    pub score: int,
    pub description: Seq<char>,
    pub kind: CompletionItemKind,
    pub completion_text: Seq<char>,
}

/// One entry of the final ordered completion list. Candidates that fail
/// the relevance filter never reach this type.
#[derive(Debug)]
pub struct CompletionItem {
    pub label: String,
    pub score: u32,
    pub description: String,
    pub kind: CompletionItemKind,
    pub completion_text: String,
}

impl View for CompletionItem {
    type V = CompletionItemView;

    open spec fn view(&self) -> CompletionItemView {
        CompletionItemView {
            label: self.label@,
            score: self.score as int,
            description: self.description@,
            kind: self.kind,
            completion_text: self.completion_text@,
        }
    }
}

impl Clone for CompletionItem {
    fn clone(&self) -> (res: Self)
        ensures
            res@ == self@,
    {
        CompletionItem {
            label: self.label.clone(),
            score: self.score,
            description: self.description.clone(),
            kind: self.kind,
            completion_text: self.completion_text.clone(),
        }
    }
}

} // verus!
