//! The size of a terminal window, for callers and for the kernel.

use vstd::prelude::*;

verus! {

/// A terminal window size in character cells, with its size in pixels where known.
#[derive(Debug, Clone, Copy, PartialEq, Eq, Structural)]
pub struct WindowSize {
    /// Columns of character cells.
    pub cols: u16,
    /// Rows of character cells.
    pub rows: u16,
    /// Width in pixels, 0 where unknown.
    pub xpixel: u16,
    /// Height in pixels, 0 where unknown.
    pub ypixel: u16,
}

/// The record that `TIOCSWINSZ` and `TIOCGWINSZ` exchange with the kernel.
#[derive(Debug, Clone, Copy, PartialEq, Eq, Structural)]
pub struct Winsize {
    /// Rows of character cells.
    pub ws_row: u16,
    /// Columns of character cells.
    pub ws_col: u16,
    /// Width in pixels.
    pub ws_xpixel: u16,
    /// Height in pixels.
    pub ws_ypixel: u16,
}

/// The window size of `cols` by `rows` cells whose pixel size is unknown.
pub open spec fn cells(cols: u16, rows: u16) -> WindowSize {
    WindowSize { cols, rows, xpixel: 0, ypixel: 0 }
}

/// The kernel record that describes a window size.
pub open spec fn winsize_of(size: WindowSize) -> Winsize {
    Winsize {
        ws_row: size.rows,
        ws_col: size.cols,
        ws_xpixel: size.xpixel,
        ws_ypixel: size.ypixel,
    }
}

/// The window size that a kernel record describes.
pub open spec fn window_size_of(winsize: Winsize) -> WindowSize {
    WindowSize {
        cols: winsize.ws_col,
        rows: winsize.ws_row,
        xpixel: winsize.ws_xpixel,
        ypixel: winsize.ws_ypixel,
    }
}

impl WindowSize {
    /// A window of `cols` by `rows` cells, its pixel size unknown.
    pub fn new(cols: u16, rows: u16) -> (size: WindowSize)
        ensures
            size == cells(cols, rows),
    {
        WindowSize { cols, rows, xpixel: 0, ypixel: 0 }
    }

    /// The kernel record for this size.
    pub fn to_winsize(&self) -> (winsize: Winsize)
        ensures
            winsize == winsize_of(*self),
    {
        Winsize {
            ws_row: self.rows,
            ws_col: self.cols,
            ws_xpixel: self.xpixel,
            ws_ypixel: self.ypixel,
        }
    }

    /// The size that a kernel record describes.
    pub fn from_winsize(winsize: Winsize) -> (size: WindowSize)
        ensures
            size == window_size_of(winsize),
    {
        WindowSize {
            cols: winsize.ws_col,
            rows: winsize.ws_row,
            xpixel: winsize.ws_xpixel,
            ypixel: winsize.ws_ypixel,
        }
    }
}

impl Default for WindowSize {
    /// The classic terminal of 80 columns and 24 rows.
    fn default() -> (size: WindowSize)
        ensures
            size == cells(80, 24),
    {
        WindowSize::new(80, 24)
    }
}

impl From<(u16, u16)> for WindowSize {
    /// A window from its columns and rows.
    fn from(size: (u16, u16)) -> (window: WindowSize) {
        WindowSize::new(size.0, size.1)
    }
}

impl vstd::std_specs::convert::FromSpecImpl<(u16, u16)> for WindowSize {
    open spec fn obeys_from_spec() -> bool {
        true
    }

    open spec fn from_spec(size: (u16, u16)) -> WindowSize {
        cells(size.0, size.1)
    }
}

/// A window size survives the exchange with the kernel in either direction: what a
/// record was made from is read back from it, and the other way round.
pub proof fn law_winsize_round_trip(size: WindowSize, winsize: Winsize)
    ensures
        window_size_of(winsize_of(size)) == size,
        winsize_of(window_size_of(winsize)) == winsize,
{
}

/// The record that a window size is set with has the rows, the columns and the pixels of
/// the size, each in its own field.
pub proof fn law_record_has_the_fields_of_the_size(size: WindowSize, winsize: Winsize)
    requires
        call_ensures(WindowSize::to_winsize, (&size,), winsize),
    ensures
        winsize.ws_row == size.rows,
        winsize.ws_col == size.cols,
        winsize.ws_xpixel == size.xpixel,
        winsize.ws_ypixel == size.ypixel,
{
}

/// The window size that is read has the rows, the columns and the pixels of its record,
/// each in its own field.
pub proof fn law_size_has_the_fields_of_the_record(winsize: Winsize, size: WindowSize)
    requires
        call_ensures(WindowSize::from_winsize, (winsize,), size),
    ensures
        size.rows == winsize.ws_row,
        size.cols == winsize.ws_col,
        size.xpixel == winsize.ws_xpixel,
        size.ypixel == winsize.ws_ypixel,
{
}

/// However a window is made from columns and rows, it has them, and no pixels are known.
pub proof fn law_window_has_its_cells(cols: u16, rows: u16, made: WindowSize, converted: WindowSize)
    requires
        call_ensures(WindowSize::new, (cols, rows), made),
        call_ensures(<WindowSize as From<(u16, u16)>>::from, ((cols, rows),), converted),
    ensures
        made.cols == cols,
        made.rows == rows,
        made.xpixel == 0,
        made.ypixel == 0,
        converted == made,
{
}

/// The default window has 80 columns and 24 rows, and no pixels are known.
pub proof fn law_default_window_is_the_classic_terminal(size: WindowSize)
    requires
        call_ensures(<WindowSize as Default>::default, (), size),
    ensures
        size.cols == 80,
        size.rows == 24,
        size.xpixel == 0,
        size.ypixel == 0,
{
}

} // verus!
