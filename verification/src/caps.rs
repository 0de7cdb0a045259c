//! The closed set of device operations and their terminfo capability names.

use vstd::prelude::*;

verus! {

/// One abstract terminal action. Each variant carries exactly the numeric
/// parameters its underlying capability template needs, so an operation with
/// the wrong parameter count cannot be constructed at all.
#[derive(Clone, Copy)]
pub enum DevFn {
    EnterCa,
    ExitCa,
    ShowCursor,
    HideCursor,
    SetCursor(usize, usize),
    Clear,
    Reset,
    Underline,
    Bold,
    Blink,
    Reverse,
    SetFg(u8),
    SetBg(u8),
}

impl DevFn {
    /// The terminfo capability name that backs this operation.
    pub open spec fn cap_name(self) -> Seq<char> {
        match self {
            DevFn::EnterCa => "smcup"@,
            DevFn::ExitCa => "rmcup"@,
            DevFn::ShowCursor => "cnorm"@,
            DevFn::HideCursor => "civis"@,
            DevFn::SetCursor(_, _) => "cup"@,
            DevFn::Clear => "clear"@,
            DevFn::Reset => "sgr0"@,
            DevFn::Underline => "smul"@,
            DevFn::Bold => "bold"@,
            DevFn::Blink => "blink"@,
            DevFn::Reverse => "rev"@,
            DevFn::SetFg(_) => "setaf"@,
            DevFn::SetBg(_) => "setab"@,
        }
    }

    /// The numeric parameters this operation substitutes into its template,
    /// in the order the terminal convention demands. Cursor positioning is
    /// expressed as (column, row) but substitutes the row first; coordinates
    /// and color codes pass through a fixed integer width unchecked, as the
    /// terminal convention leaves range checks to the caller.
    pub open spec fn params(self) -> Seq<i32> {
        match self {
            DevFn::SetFg(a) => seq![a as i32],
            DevFn::SetBg(a) => seq![a as i32],
            DevFn::SetCursor(x, y) => seq![y as i32, x as i32],
            _ => Seq::empty(),
        }
    }

    /// Maps this operation to its capability name.
    pub fn as_str(&self) -> (r: &'static str)
        ensures
            r@ == self.cap_name(),
    {
        match *self {
            DevFn::EnterCa => "smcup",
            DevFn::ExitCa => "rmcup",
            DevFn::ShowCursor => "cnorm",
            DevFn::HideCursor => "civis",
            DevFn::SetCursor(..) => "cup",
            DevFn::Clear => "clear",
            DevFn::Reset => "sgr0",
            DevFn::Underline => "smul",
            DevFn::Bold => "bold",
            DevFn::Blink => "blink",
            DevFn::Reverse => "rev",
            DevFn::SetFg(..) => "setaf",
            DevFn::SetBg(..) => "setab",
        }
    }
}

/// The capability names every driver requires, in validation order.
pub open spec fn required_caps() -> Seq<Seq<char>> {
    seq![
        "smcup"@,
        "rmcup"@,
        "cnorm"@,
        "civis"@,
        "cup"@,
        "clear"@,
        "sgr0"@,
        "smul"@,
        "bold"@,
        "rev"@,
        "setaf"@,
        "setab"@,
    ]
}

/// The required capability names as strings, in validation order.
pub fn required_list() -> (r: Vec<&'static str>)
    ensures
        r@.len() == required_caps().len(),
        forall|i: int| 0 <= i < r@.len() ==> (#[trigger] r@[i])@ == required_caps()[i],
{
    let mut v: Vec<&'static str> = Vec::new();
    v.push("smcup");
    v.push("rmcup");
    v.push("cnorm");
    v.push("civis");
    v.push("cup");
    v.push("clear");
    v.push("sgr0");
    v.push("smul");
    v.push("bold");
    v.push("rev");
    v.push("setaf");
    v.push("setab");
    v
}

} // verus!
