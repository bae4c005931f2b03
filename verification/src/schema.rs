//! Shapes of the request bodies.

use crate::model::{text_of, Content, PartialContent};
use vstd::prelude::*;

verus! {

/// Query parameters of a filtered read. No handler reads them yet.
#[derive(Debug, Clone, PartialEq, Eq)]
pub struct ParameterOptions {
    pub category: String,
}

/// The body of a create request: all four texts.
#[derive(Debug, Clone, PartialEq, Eq)]
pub struct CreateQuoteSchema {
    pub quote: String,
    pub category: String,
    pub anime: String,
    pub character: String,
}

/// The body of an update request: the texts to overwrite. An absent field
/// leaves the stored text as it is; an empty string overwrites it.
#[derive(Debug, Clone, PartialEq, Eq)]
pub struct UpdateQuoteSchema {
    pub quote: Option<String>,
    pub category: Option<String>,
    pub anime: Option<String>,
    pub character: Option<String>,
}

impl View for ParameterOptions {
    type V = Seq<char>;

    open spec fn view(&self) -> Seq<char> {
        self.category@
    }
}

impl View for CreateQuoteSchema {
    type V = Content;

    open spec fn view(&self) -> Content {
        Content {
            quote: self.quote@,
            category: self.category@,
            anime: self.anime@,
            character: self.character@,
        }
    }
}

impl View for UpdateQuoteSchema {
    type V = PartialContent;

    open spec fn view(&self) -> PartialContent {
        PartialContent {
            quote: text_of(self.quote),
            category: text_of(self.category),
            anime: text_of(self.anime),
            character: text_of(self.character),
        }
    }
}

} // verus!
