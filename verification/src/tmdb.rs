//! The TMDB request for the images of a TV show.
use vstd::prelude::*;
use crate::text::{concat, int_text, owned, u64_text};

verus! {

/// The images of a TV show, in a language when one is given.
#[derive(Clone, Debug, Default)]
pub struct TVShowImages {
    /// The show's TMDB id.
    pub show_id: u64,
    /// An ISO 639-1 code to translate the fields that support it.
    pub language: Option<String>,
}

impl TVShowImages {
    /// The images of a show, in no particular language.
    pub fn new(show_id: u64) -> (r: TVShowImages)
        ensures
            r.show_id == show_id,
            r.language is None,
    {
        TVShowImages { show_id, language: None }
    }

    /// Sets the language.
    pub fn with_language(self, value: Option<String>) -> (r: TVShowImages)
        ensures
            r.show_id == self.show_id,
            r.language == value,
    {
        TVShowImages { language: value, ..self }
    }

    /// The path of the request: `/tv/{id}/images`.
    pub fn path(&self) -> (r: String)
        ensures
            r@ == "/tv/"@ + int_text(self.show_id as int) + "/images"@,
    {
        let p = concat("/tv/", u64_text(self.show_id).as_str());
        concat(p.as_str(), "/images")
    }

    /// The query of the request: the language when one is given.
    pub fn params(&self) -> (r: Vec<(String, String)>)
        ensures
            r@.len() == (if self.language is Some { 1int } else { 0 }),
            self.language is Some ==> r@[0].0@ == "language"@ && r@[0].1 == self.language->0,
    {
        let mut v: Vec<(String, String)> = Vec::new();
        match &self.language {
            Some(l) => v.push((owned("language"), l.clone())),
            None => {},
        }
        v
    }
}

} // verus!
