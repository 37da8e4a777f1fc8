//! Page geometry: size, page number and margin layout of one output page.
//!
//! All lengths are whole numbers of points.  A page is "verso" (a left-hand
//! page of a duplex spread) when duplex printing is on and the page number
//! is even; the wide binding margin and the page-number corner swap sides
//! between verso and recto pages, while the usable width stays the same.

use vstd::prelude::*;

verus! {

/// Margin on the binding side of a page, in points.
pub const INNER_MARGIN: u32 = 70;

/// Margin on the outer side of a page, in points.
pub const OUTER_MARGIN: u32 = 20;

/// Margin above the first text line of a page, in points.
pub const TOP_MARGIN: u32 = 20;

/// Long side of an A4 page, in points.
pub const A4_LONG: u32 = 842;

/// Short side of an A4 page, in points.
pub const A4_SHORT: u32 = 596;

/// Size, number and margin layout of one page.
///
/// The value is immutable; advancing to the next page yields a fresh value
/// with the page number incremented and everything else copied.
#[derive(Copy, Clone)]
pub struct PageDim {
    pub width: u32,
    pub height: u32,
    pub pageno: u32,
    pub is_duplex: bool,
    pub show_pageno: bool,
}

impl PageDim {
    /// The page is large enough for its fixed margins.
    pub open spec fn wf(&self) -> bool {
        &&& self.width >= INNER_MARGIN + OUTER_MARGIN
        &&& self.height >= TOP_MARGIN
    }

    /// First page of a document on A4 paper.
    pub fn new(landscape: bool, duplex: bool, show_pageno: bool) -> (r: PageDim)
        ensures
            r.wf(),
            r.width == if landscape { A4_LONG } else { A4_SHORT },
            r.height == if landscape { A4_SHORT } else { A4_LONG },
            r.pageno == 1,
            r.is_duplex == duplex,
            r.show_pageno == show_pageno,
    {
        let (width, height) = if landscape { (A4_LONG, A4_SHORT) } else { (A4_SHORT, A4_LONG) };
        PageDim { width, height, pageno: 1, is_duplex: duplex, show_pageno }
    }

    /// The following page: same sheet layout, page number one higher.
    pub fn next(&self) -> (r: PageDim)
        requires
            self.pageno < u32::MAX,
        ensures
            r.pageno == self.pageno + 1,
            r.width == self.width,
            r.height == self.height,
            r.is_duplex == self.is_duplex,
            r.show_pageno == self.show_pageno,
    {
        PageDim { pageno: self.pageno + 1, ..*self }
    }

    /// Verso means duplex printing is on and the page number is even.
    pub open spec fn spec_is_verso(&self) -> bool {
        self.is_duplex && self.pageno % 2 == 0
    }

    pub fn is_verso(&self) -> (r: bool)
        ensures
            r == self.spec_is_verso(),
    {
        self.is_duplex && self.pageno % 2 == 0
    }

    /// Width of the usable area; the same on verso and recto pages.
    pub fn inner_width(&self) -> (r: u32)
        requires
            self.wf(),
        ensures
            r == self.width - (INNER_MARGIN + OUTER_MARGIN),
    {
        self.width - (INNER_MARGIN + OUTER_MARGIN)
    }

    pub fn width(&self) -> (r: u32)
        ensures
            r == self.width,
    {
        self.width
    }

    pub fn height(&self) -> (r: u32)
        ensures
            r == self.height,
    {
        self.height
    }

    /// The number to print on the page, or `None` when numbers are hidden.
    pub fn pageno(&self) -> (r: Option<u32>)
        ensures
            r == if self.show_pageno { Some(self.pageno) } else { None::<u32> },
    {
        if self.show_pageno {
            Some(self.pageno)
        } else {
            None
        }
    }

    /// Left edge of the usable area: the binding margin sits on the right
    /// of a verso page, so only the outer margin remains on its left.
    pub fn left(&self) -> (r: u32)
        ensures
            r == if self.spec_is_verso() { OUTER_MARGIN } else { INNER_MARGIN },
    {
        if self.is_verso() {
            OUTER_MARGIN
        } else {
            INNER_MARGIN
        }
    }

    /// Right edge of the usable area.
    pub fn right(&self) -> (r: u32)
        requires
            self.wf(),
        ensures
            r == self.width - if self.spec_is_verso() { INNER_MARGIN } else { OUTER_MARGIN },
    {
        if self.is_verso() {
            self.width - INNER_MARGIN
        } else {
            self.width - OUTER_MARGIN
        }
    }

    /// Top edge of the usable area.
    pub fn top(&self) -> (r: u32)
        requires
            self.wf(),
        ensures
            r == self.height - TOP_MARGIN,
    {
        self.height - TOP_MARGIN
    }
}

} // verus!
