//! Hover tooltips: the text of a hover answer, and which answer is kept
//! while the pointer moves and answers come in late.

use vstd::prelude::*;
use vstd::string::StringExecFns;
use crate::paths::opt_text;

verus! {

/// A piece of hover content: plain text or a code block in some language.
#[derive(Debug, PartialEq, Eq)]
pub enum MarkedText {
    Text(String),
    Code { language: String, value: String },
}

/// The content of a hover answer.
#[derive(Debug, PartialEq, Eq)]
pub enum HoverContents {
    Scalar(MarkedText),
    Array(Vec<MarkedText>),
    Markup(String),
}

/// A hover answer of the language server.
#[derive(Debug, PartialEq, Eq)]
pub struct Hover {
    pub contents: HoverContents,
}

/// Mathematical model of a `HoverContents`, each piece taken as the text it
/// shows.
pub enum HoverContentsView {
    Scalar(Seq<char>),
    Array(Seq<Seq<char>>),
    Markup(Seq<char>),
}

impl MarkedText {
    /// The text that the piece shows: the text itself, or the code of a code
    /// block.
    pub open spec fn shown(&self) -> Seq<char> {
        match self {
            MarkedText::Text(text) => text@,
            MarkedText::Code { value, .. } => value@,
        }
    }

    fn shown_text(&self) -> (text: &String)
        ensures
            text@ == self.shown(),
    {
        match self {
            MarkedText::Text(text) => text,
            MarkedText::Code { value, .. } => value,
        }
    }
}

impl Clone for MarkedText {
    fn clone(&self) -> (copy: Self)
        ensures
            copy == *self,
    {
        match self {
            MarkedText::Text(text) => MarkedText::Text(text.clone()),
            MarkedText::Code { language, value } => MarkedText::Code {
                language: language.clone(),
                value: value.clone(),
            },
        }
    }
}

/// The texts that pieces of hover content show, in order.
pub open spec fn shown_texts(items: Seq<MarkedText>) -> Seq<Seq<char>> {
    Seq::new(items.len(), |i: int| items[i].shown())
}

impl View for HoverContents {
    type V = HoverContentsView;

    open spec fn view(&self) -> HoverContentsView {
        match self {
            HoverContents::Scalar(item) => HoverContentsView::Scalar(item.shown()),
            HoverContents::Array(items) => HoverContentsView::Array(shown_texts(items@)),
            HoverContents::Markup(value) => HoverContentsView::Markup(value@),
        }
    }
}

impl View for Hover {
    type V = HoverContentsView;

    open spec fn view(&self) -> HoverContentsView {
        self.contents@
    }
}

/// The first `n` of `lines`, with a line feed between each two.
pub open spec fn joined(lines: Seq<Seq<char>>, n: nat) -> Seq<char>
    decreases n,
{
    if n == 0 || n > lines.len() {
        Seq::empty()
    } else if n == 1 {
        lines[0]
    } else {
        joined(lines, (n - 1) as nat) + seq!['\n'] + lines[n - 1]
    }
}

impl HoverContentsView {
    /// All of the content as one text: the pieces of an array stand on
    /// lines of their own.
    pub open spec fn collapsed(self) -> Seq<char> {
        match self {
            HoverContentsView::Scalar(text) => text,
            HoverContentsView::Array(lines) => joined(lines, lines.len()),
            HoverContentsView::Markup(text) => text,
        }
    }

    /// The text to show for the content, or `None` where the content is the
    /// unit value `()`, which says nothing.
    pub open spec fn text(self) -> Option<Seq<char>> {
        if self.collapsed() == seq!['(', ')'] {
            None
        } else {
            Some(self.collapsed())
        }
    }
}

impl Hover {
    /// The content as one text.
    fn collapse(&self) -> (text: String)
        ensures
            text@ == self@.collapsed(),
    {
        match &self.contents {
            HoverContents::Markup(value) => value.clone(),
            HoverContents::Scalar(item) => item.shown_text().clone(),
            HoverContents::Array(items) => {
                let mut text = String::new();
                let mut i: usize = 0;
                while i < items.len()
                    invariant
                        i <= items.len(),
                        text@ == joined(shown_texts(items@), i as nat),
                    decreases items.len() - i,
                {
                    if i > 0 {
                        proof {
                            reveal_strlit("\n");
                        }
                        text.append("\n");
                        assert(text@ =~= joined(shown_texts(items@), i as nat) + seq!['\n']);
                    }
                    text.append(items[i].shown_text().as_str());
                    i += 1;
                }
                text
            },
        }
    }

    /// The text to show for this answer, or `None` where it says nothing.
    pub fn hover_to_text(&self) -> (text: Option<String>)
        ensures
            opt_text(text) == self@.text(),
    {
        let text = self.collapse();
        proof {
            reveal_strlit("()");
        }
        assert("()"@ =~= seq!['(', ')']);
        if text == String::from_str("()") {
            None
        } else {
            Some(text)
        }
    }
}

impl Clone for Hover {
    fn clone(&self) -> (copy: Self)
        ensures
            copy@ == self@,
    {
        match &self.contents {
            HoverContents::Markup(value) => Hover { contents: HoverContents::Markup(value.clone()) },
            HoverContents::Scalar(item) => Hover { contents: HoverContents::Scalar(item.clone()) },
            HoverContents::Array(items) => {
                let mut copies: Vec<MarkedText> = Vec::new();
                let mut i: usize = 0;
                while i < items.len()
                    invariant
                        i <= items.len(),
                        copies.len() == i,
                        forall|j: int| 0 <= j < i ==> copies[j] == items[j],
                    decreases items.len() - i,
                {
                    copies.push(items[i].clone());
                    i += 1;
                }
                assert(shown_texts(copies@) =~= shown_texts(items@));
                Hover { contents: HoverContents::Array(copies) }
            },
        }
    }
}

} // verus!
