//! The page codes a printer can be switched to.

use vstd::prelude::*;

verus! {

/// A page code that a printer knows: its choice of characters for the bytes
/// 128 to 255. Text can be translated for those that have a table, see
/// [`PageCodeTable`](crate::domain::page_codes::PageCodeTable).
#[allow(non_camel_case_types)]
#[derive(Debug, Clone, Copy, PartialEq, Eq, Structural)]
pub enum PageCode {
    PC437,
    Katakana,
    PC850,
    PC860,
    PC863,
    PC865,
    Hiragana,
    PC851,
    PC853,
    PC857,
    PC737,
    ISO8859_7,
    WPC1252,
    PC866,
    PC852,
    PC858,
}

impl PageCode {
    /// The characters of the page code's name.
    pub open spec fn name_text(self) -> Seq<char> {
        match self {
            PageCode::PC437 => "PC437"@,
            PageCode::Katakana => "Katakana"@,
            PageCode::PC850 => "PC850"@,
            PageCode::PC860 => "PC860"@,
            PageCode::PC863 => "PC863"@,
            PageCode::PC865 => "PC865"@,
            PageCode::Hiragana => "Hiragana"@,
            PageCode::PC851 => "PC851"@,
            PageCode::PC853 => "PC853"@,
            PageCode::PC857 => "PC857"@,
            PageCode::PC737 => "PC737"@,
            PageCode::ISO8859_7 => "ISO8859_7"@,
            PageCode::WPC1252 => "WPC1252"@,
            PageCode::PC866 => "PC866"@,
            PageCode::PC852 => "PC852"@,
            PageCode::PC858 => "PC858"@,
        }
    }

    /// The name of the page code, as it is written in messages.
    pub fn name(&self) -> (name: &'static str)
        ensures
            name@ == self.name_text(),
    {
        match self {
            PageCode::PC437 => "PC437",
            PageCode::Katakana => "Katakana",
            PageCode::PC850 => "PC850",
            PageCode::PC860 => "PC860",
            PageCode::PC863 => "PC863",
            PageCode::PC865 => "PC865",
            PageCode::Hiragana => "Hiragana",
            PageCode::PC851 => "PC851",
            PageCode::PC853 => "PC853",
            PageCode::PC857 => "PC857",
            PageCode::PC737 => "PC737",
            PageCode::ISO8859_7 => "ISO8859_7",
            PageCode::WPC1252 => "WPC1252",
            PageCode::PC866 => "PC866",
            PageCode::PC852 => "PC852",
            PageCode::PC858 => "PC858",
        }
    }
}

} // verus!
