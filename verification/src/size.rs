//! The size of the terminal's screen.

use portable_pty::PtySize;
use vstd::prelude::*;

verus! {

#[verifier::external_type_specification]
pub struct ExPtySize(PtySize);

/// Rows and columns of the screen in cells, and the size of a cell in pixels.
/// Every value is passed on as it is: nothing is clamped or defaulted.
#[derive(Clone, Copy, Debug, PartialEq, Eq, Structural)]
pub struct TerminalSize {
    pub rows: u16,
    pub cols: u16,
    pub pixel_width: u16,
    pub pixel_height: u16,
}

/// The size a terminal is opened with: 24 rows of 80 columns, no pixel size.
pub open spec fn initial_size() -> TerminalSize {
    TerminalSize { rows: 24, cols: 80, pixel_width: 0, pixel_height: 0 }
}

/// A size in the provider's type, field for field.
pub open spec fn provider_size(size: TerminalSize) -> PtySize {
    PtySize {
        rows: size.rows,
        cols: size.cols,
        pixel_width: size.pixel_width,
        pixel_height: size.pixel_height,
    }
}

/// A provider's size in this crate's type, field for field.
pub open spec fn own_size(size: PtySize) -> TerminalSize {
    TerminalSize {
        rows: size.rows,
        cols: size.cols,
        pixel_width: size.pixel_width,
        pixel_height: size.pixel_height,
    }
}

impl TerminalSize {
    /// The size a terminal is opened with.
    pub fn initial() -> (size: TerminalSize)
        ensures
            size == initial_size(),
    {
        TerminalSize { rows: 24, cols: 80, pixel_width: 0, pixel_height: 0 }
    }

    /// The same size in the provider's type.
    pub fn to_provider(self) -> (size: PtySize)
        ensures
            size == provider_size(self),
    {
        PtySize {
            rows: self.rows,
            cols: self.cols,
            pixel_width: self.pixel_width,
            pixel_height: self.pixel_height,
        }
    }

    /// The size that the provider reports.
    pub fn from_provider(size: PtySize) -> (own: TerminalSize)
        ensures
            own == own_size(size),
    {
        TerminalSize {
            rows: size.rows,
            cols: size.cols,
            pixel_width: size.pixel_width,
            pixel_height: size.pixel_height,
        }
    }
}

/// A size that goes to the provider and comes back as it went is the size that
/// was given: the conversions add and drop nothing.
pub proof fn law_size_round_trip(size: TerminalSize)
    ensures
        own_size(provider_size(size)) == size,
{
}

} // verus!
