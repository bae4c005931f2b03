//! The quote record, as storage holds it and as clients see it.

use vstd::prelude::*;

verus! {

/// A quote as a row of the table: the columns can be null.
#[derive(Debug, Clone, PartialEq, Eq)]
pub struct QuoteModel {
    pub id: i32,
    pub quote: Option<String>,
    pub category: Option<String>,
    pub anime: Option<String>,
    pub character: Option<String>,
}

/// A quote as it is sent to a client: every field is there, the id as text.
#[derive(Debug, Clone, PartialEq, Eq)]
pub struct QuoteModelResponse {
    pub id: String,
    pub quote: String,
    pub category: String,
    pub anime: String,
    pub character: String,
}

/// One of the four text columns of a quote.
#[derive(Debug, Clone, Copy, PartialEq, Eq, Structural)]
pub enum QuoteField {
    Quote,
    Category,
    Anime,
    Character,
}

/// The four texts of a quote, all present.
pub ghost struct Content {
    pub quote: Seq<char>,
    pub category: Seq<char>,
    pub anime: Seq<char>,
    pub character: Seq<char>,
}

/// The four texts of a quote, where each may be absent.
pub ghost struct PartialContent {
    pub quote: Option<Seq<char>>,
    pub category: Option<Seq<char>>,
    pub anime: Option<Seq<char>>,
    pub character: Option<Seq<char>>,
}

/// What a row means: its id and its texts.
pub ghost struct QuoteModelView {
    pub id: int,
    pub content: PartialContent,
}

/// What a wire record means: the id as text, and the four texts.
pub ghost struct QuoteModelResponseView {
    pub id: Seq<char>,
    pub content: Content,
}

/// The characters of an optional string.
pub open spec fn text_of(s: Option<String>) -> Option<Seq<char>> {
    match s {
        Some(s) => Some(s@),
        None => None,
    }
}

impl Content {
    /// The same texts, seen as texts that might be absent.
    pub open spec fn as_partial(self) -> PartialContent {
        PartialContent {
            quote: Some(self.quote),
            category: Some(self.category),
            anime: Some(self.anime),
            character: Some(self.character),
        }
    }
}

impl PartialContent {
    /// The first field, in column order, that is absent.
    pub open spec fn first_missing(self) -> Option<QuoteField> {
        if self.quote is None {
            Some(QuoteField::Quote)
        } else if self.category is None {
            Some(QuoteField::Category)
        } else if self.anime is None {
            Some(QuoteField::Anime)
        } else if self.character is None {
            Some(QuoteField::Character)
        } else {
            None
        }
    }

    /// No field is absent.
    pub open spec fn is_complete(self) -> bool {
        self.first_missing() is None
    }

    /// The four texts of a complete record.
    pub open spec fn complete(self) -> Content
        recommends
            self.is_complete(),
    {
        Content {
            quote: self.quote->0,
            category: self.category->0,
            anime: self.anime->0,
            character: self.character->0,
        }
    }

    /// These texts where they are present, and those of `stored` where not.
    pub open spec fn or(self, stored: PartialContent) -> PartialContent {
        PartialContent {
            quote: if self.quote is Some { self.quote } else { stored.quote },
            category: if self.category is Some { self.category } else { stored.category },
            anime: if self.anime is Some { self.anime } else { stored.anime },
            character: if self.character is Some { self.character } else { stored.character },
        }
    }
}

impl View for QuoteModel {
    type V = QuoteModelView;

    open spec fn view(&self) -> QuoteModelView {
        QuoteModelView {
            id: self.id as int,
            content: PartialContent {
                quote: text_of(self.quote),
                category: text_of(self.category),
                anime: text_of(self.anime),
                character: text_of(self.character),
            },
        }
    }
}

impl View for QuoteModelResponse {
    type V = QuoteModelResponseView;

    open spec fn view(&self) -> QuoteModelResponseView {
        QuoteModelResponseView {
            id: self.id@,
            content: Content {
                quote: self.quote@,
                category: self.category@,
                anime: self.anime@,
                character: self.character@,
            },
        }
    }
}

} // verus!
