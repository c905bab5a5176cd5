//! A document-templating engine for word-processor packages.
//!
//! A package (a zip archive of markup parts) is treated as an editable token
//! stream: placeholders embedded in document text are located, reassembled
//! when the substrate split them across adjacent runs, and substituted with
//! rendered content, while every unaffected byte of the package is kept.
//!
//! The load-and-render entry points live in [`template`]; tokenization and
//! area resolution in [`parse`]; the placeholder grammar and its accumulator
//! in [`grammar`] and [`accumulator`]; content generation in [`builders`],
//! [`table`], [`markdown`] and [`jupyter`]; substitution and package
//! bookkeeping in [`render`].  The laws the engine keeps are stated and
//! proved in [`laws`].

pub mod accumulator;
pub mod builders;
pub mod errors;
pub mod grammar;
pub mod jsondata;
pub mod jupyter;
pub mod laws;
pub mod markdown;
pub mod model;
pub mod parse;
pub mod placeholder;
pub mod render;
pub mod table;
pub mod template;
pub mod strutil;
pub mod xmlio;
pub mod ziparc;

use vstd::prelude::*;

verus! {

/// Page size and margin measurements read once from the document's
/// section properties, in twentieths of a point.
#[derive(Debug, Clone, Copy, PartialEq, Eq, Structural)]
pub struct PageDimensions {
    pub height: i32,
    pub width: i32,
    pub m_top: i32,
    pub m_bottom: i32,
    pub m_right: i32,
    pub m_left: i32,
    pub header: i32,
    pub footer: i32,
    pub gutter: i32,
}

impl PageDimensions {
    /// The measurements a table can be sized against: a positive page width
    /// with side margins that leave printable room.
    pub open spec fn wf(&self) -> bool {
        &&& 0 < self.width
        &&& 0 <= self.m_left
        &&& 0 <= self.m_right
        &&& self.m_left + self.m_right <= self.width
    }
}

/// Convert a pixel measurement (at 72 pixels per inch) into the
/// drawing-coordinate units used for sizing inline graphics.
pub fn pixels_to_word_emu(pixels: u32) -> (r: u32)
    requires
        pixels as int * 914400 / 72 + 2540 <= u32::MAX as int,
    ensures
        r as int == pixels as int * 914400 / 72 + 2540,
{
    ((pixels as u64 * 914400) / 72 + 2540) as u32
}

} // verus!
