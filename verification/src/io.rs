//! A single output line-group of either kind: a mode-option block or one
//! row line, rendered through one common entry point.

use vstd::prelude::*;

use crate::option::ModeOption;
use crate::option::RowOption;
use crate::option::spec_mode_render;
use crate::option::spec_row_render;

verus! {

/// One unit of output: either a whole mode-option block or a single row.
pub enum RofiOutput {
    /// A block of global display settings.
    Opt(ModeOption),
    /// One selectable row.
    Row(RowOption),
}

/// The rendering of one output unit: the block rendering for options,
/// the line rendering for a row.
pub open spec fn spec_output_render(o: RofiOutput) -> Seq<char> {
    match o {
        RofiOutput::Opt(m) => spec_mode_render(m),
        RofiOutput::Row(r) => spec_row_render(r),
    }
}

impl RofiOutput {
    /// Renders this unit as the text the front-end parses.
    pub fn render(&self) -> (r: String)
        ensures
            r@ == spec_output_render(*self),
    {
        match self {
            RofiOutput::Opt(mode_option) => mode_option.render(),
            RofiOutput::Row(row_option) => row_option.render(),
        }
    }
}

} // verus!
