//! What a page has to draw.

use vstd::prelude::*;

verus! {

/// A page's answer. The three report models are the reader's own types;
/// nothing here looks inside them.
pub enum PageData<Probes, Routes, Priced> {
    /// The page draws its own state and reads nothing from the store.
    Empty,
    /// A pair page with no pair yet.
    WaitingForPair,
    /// The store is being read. Kept distinct from an empty answer, which is
    /// a claim about the market rather than about the reader's patience.
    Loading,
    /// Display lines, for the pages that still print.
    Text(Vec<String>),
    /// The probe queue, drawn as rows with their own controls.
    Probes(Box<Probes>),
    /// The radar's ranked routes.
    Opportunities(Box<Routes>),
    /// "I hold X and want Y", priced.
    Convert(Box<Priced>),
    Failed(String),
}

/// Whether an answer is something to draw rather than a message.
pub open spec fn has_content<Probes, Routes, Priced>(data: PageData<Probes, Routes, Priced>) -> bool {
    match data {
        PageData::Text(lines) => lines@.len() > 0,
        PageData::Probes(_) | PageData::Opportunities(_) | PageData::Convert(_) => true,
        _ => false,
    }
}

impl<Probes, Routes, Priced> Default for PageData<Probes, Routes, Priced> {
    /// A page that reads nothing.
    fn default() -> (data: Self)
        ensures
            data is Empty,
    {
        PageData::Empty
    }
}

impl<Probes, Routes, Priced> PageData<Probes, Routes, Priced> {
    /// Whether the page has nothing to draw beyond its own message: no
    /// lines, no probe rows, no routes, no priced conversion.
    pub fn is_content(&self) -> (message_only: bool)
        ensures
            message_only == !has_content(*self),
    {
        match self {
            PageData::Text(lines) => lines.len() == 0,
            PageData::Probes(_) | PageData::Opportunities(_) | PageData::Convert(_) => false,
            _ => true,
        }
    }
}

} // verus!
