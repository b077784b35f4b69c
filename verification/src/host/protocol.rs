//! The dialects that indicators speak.

use crate::text::spells;
use crate::text::uppercase_of;
use vstd::prelude::*;

verus! {

/// A dialect: one of the two that are understood, or another one by name.
#[derive(Debug)]
pub enum Protocol {
    Rincmd,
    DiniAscii,
    Custom(String),
}

/// The mathematical content of a [`Protocol`].
pub enum ProtocolView {
    Rincmd,
    DiniAscii,
    Custom(Seq<char>),
}

impl View for Protocol {
    type V = ProtocolView;

    open spec fn view(&self) -> ProtocolView {
        match self {
            Protocol::Rincmd => ProtocolView::Rincmd,
            Protocol::DiniAscii => ProtocolView::DiniAscii,
            Protocol::Custom(name) => ProtocolView::Custom(name@),
        }
    }
}

/// What ends every command on the wire: carriage return and line feed.
pub const TERMINATOR: &'static str = "\r\n";

impl ProtocolView {
    /// The dialect that the tag `tag`, whose uppercase form is `upper`,
    /// names. A tag that names neither dialect is kept as it was written.
    pub open spec fn of_tag(upper: Seq<char>, tag: Seq<char>) -> ProtocolView {
        if upper == "RINCMD"@ || upper == "RINSTRUM"@ {
            ProtocolView::Rincmd
        } else if upper == "DINI_ASCII"@ || upper == "DINI_ARGEO"@ || upper == "ASCII"@ {
            ProtocolView::DiniAscii
        } else {
            ProtocolView::Custom(tag)
        }
    }

    /// The dialect that a tag names, whatever the case of its letters.
    pub open spec fn from_str(tag: Seq<char>) -> ProtocolView {
        ProtocolView::of_tag(uppercase_of(tag), tag)
    }

    /// Whether the dialect is one of the two that are understood.
    pub open spec fn is_known(self) -> bool {
        !(self is Custom)
    }
}

impl Protocol {
    /// The dialect that the tag `tag`, whose uppercase form is `upper`,
    /// names.
    pub fn of_tag(upper: &str, tag: &str) -> (p: Protocol)
        ensures
            p@ == ProtocolView::of_tag(upper@, tag@),
    {
        if spells(upper, "RINCMD") || spells(upper, "RINSTRUM") {
            Protocol::Rincmd
        } else if spells(upper, "DINI_ASCII") || spells(upper, "DINI_ARGEO") || spells(
            upper,
            "ASCII",
        ) {
            Protocol::DiniAscii
        } else {
            Protocol::Custom(tag.to_string())
        }
    }

    /// The dialect that a tag names, whatever the case of its letters.
    pub fn from_str(s: &str) -> (p: Protocol)
        ensures
            p@ == ProtocolView::from_str(s@),
    {
        let upper = s.to_uppercase();
        Protocol::of_tag(upper.as_str(), s)
    }

    /// What ends a command of this dialect on the wire.
    pub fn command_terminator(&self) -> (t: &'static str)
        ensures
            t@ == TERMINATOR@,
    {
        match self {
            Protocol::Rincmd => TERMINATOR,
            Protocol::DiniAscii => TERMINATOR,
            Protocol::Custom(_) => TERMINATOR,
        }
    }

    /// A copy of the dialect.
    pub fn copy(&self) -> (p: Protocol)
        ensures
            p@ == self@,
    {
        match self {
            Protocol::Rincmd => Protocol::Rincmd,
            Protocol::DiniAscii => Protocol::DiniAscii,
            Protocol::Custom(name) => Protocol::Custom(name.clone()),
        }
    }
}

} // verus!
