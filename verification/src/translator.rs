//! Translation of text into the bytes of a page code.
//!
//! A printer takes one byte for each character. The ASCII characters are their
//! own bytes on every page code; every other character needs an entry in the
//! table of the page code that the printer is switched to. A text with a
//! character that the page code lacks is refused as a whole.

use crate::domain::page_code::PageCode;
use crate::domain::page_codes::lemma_characters_are_a_page;
use crate::domain::page_codes::lemma_table_is_one_to_one;
use crate::domain::page_codes::no_table_message;
use crate::domain::page_codes::CodePageTable;
use crate::domain::page_codes::PageCodeTable;
use crate::errors::PrinterError;
use crate::errors::PrinterErrorView;
use vstd::prelude::*;

verus! {

/// The byte that a page code has for one character: the character's own
/// scalar value in the ASCII range, and the byte of the page's table above it.
pub open spec fn encoded_char(page: PageCodeTable, c: char) -> Option<u8> {
    if c as u32 <= 127 {
        Some(c as u8)
    } else {
        page.byte_of(c)
    }
}

/// Whether the page code has a byte for every character of `text`.
pub open spec fn encodable(page: PageCodeTable, text: Seq<char>) -> bool {
    forall|i: int| 0 <= i < text.len() ==> encoded_char(page, #[trigger] text[i]) is Some
}

/// The bytes of `text` in the page code, one for each character and in the
/// same order. It is meant for a text that is [`encodable`].
pub open spec fn encoded(page: PageCodeTable, text: Seq<char>) -> Seq<u8> {
    Seq::new(text.len(), |i: int| encoded_char(page, text[i])->0)
}

/// Whether `i` is the position of the first character of `text` that the page
/// code has no byte for.
pub open spec fn is_first_unmapped(page: PageCodeTable, text: Seq<char>, i: int) -> bool {
    &&& 0 <= i < text.len()
    &&& encoded_char(page, text[i]) is None
    &&& forall|j: int| 0 <= j < i ==> encoded_char(page, #[trigger] text[j]) is Some
}

/// The position of the first character of `text` that the page code has no
/// byte for. It is meant for a text that is not [`encodable`].
pub open spec fn first_unmapped(page: PageCodeTable, text: Seq<char>) -> int {
    choose|i: int| is_first_unmapped(page, text, i)
}

/// The message of the error for a character that the page code has no byte
/// for: it shows the character and names the page code.
pub open spec fn unmapped_message(page: PageCodeTable, c: char) -> Seq<char> {
    "no byte for the character '"@.push(c) + "' in page code "@ + page.code().name_text()
}

/// What translating `text` for a page code with a table comes to: the bytes of
/// the whole text, or the input error for the first character without a byte.
pub open spec fn translation(page: PageCodeTable, text: Seq<char>) -> Result<
    Seq<u8>,
    PrinterErrorView,
> {
    if encodable(page, text) {
        Ok(encoded(page, text))
    } else {
        Err(PrinterErrorView::Input(unmapped_message(page, text[first_unmapped(page, text)])))
    }
}

/// What translating `text` for any page code comes to: the input error for a
/// page code without a table, and else the [`translation`] by its table.
pub open spec fn translation_for(code: PageCode, text: Seq<char>) -> Result<
    Seq<u8>,
    PrinterErrorView,
> {
    match PageCodeTable::for_code(code) {
        Some(page) => translation(page, text),
        None => Err(PrinterErrorView::Input(no_table_message(code))),
    }
}

/// The result of a translation as a mathematical value.
pub open spec fn outcome(result: Result<Vec<u8>, PrinterError>) -> Result<
    Seq<u8>,
    PrinterErrorView,
> {
    match result {
        Ok(bytes) => Ok(bytes@),
        Err(error) => Err(error@),
    }
}

/// `String::push`: the string gets the one character at its end.
#[verifier::external_body]
fn push_char(text: &mut String, c: char)
    ensures
        final(text)@ == old(text)@.push(c),
{
    text.push(c)
}

/// The input error for a character that the page code has no byte for.
fn unmapped_error(page: PageCodeTable, c: char) -> (error: PrinterError)
    ensures
        error@ == PrinterErrorView::Input(unmapped_message(page, c)),
{
    let mut message = String::from_str("no byte for the character '");
    push_char(&mut message, c);
    message.append("' in page code ");
    message.append(page.page_code().name());
    PrinterError::Input(message)
}

/// There is one first character without a byte at most.
proof fn lemma_first_unmapped_is_unique(page: PageCodeTable, text: Seq<char>, i: int)
    requires
        is_first_unmapped(page, text, i),
    ensures
        !encodable(page, text),
        first_unmapped(page, text) == i,
{
    let chosen = first_unmapped(page, text);
    assert(is_first_unmapped(page, text, chosen));
    if chosen < i {
        assert(encoded_char(page, text[chosen]) is Some);
    }
    if i < chosen {
        assert(encoded_char(page, text[i]) is Some);
    }
}

impl CodePageTable {
    /// The byte for one character: its own scalar value in the ASCII range,
    /// the byte of the table above it, and none where the table lacks it.
    pub fn encode_char(&self, c: char) -> (byte: Option<u8>)
        ensures
            byte == encoded_char(self.page(), c),
    {
        if c as u32 <= 127 {
            Some(c as u8)
        } else {
            self.get(c)
        }
    }

    /// Translates `text` into the bytes of the table's page code, one byte for
    /// each character. The first character that the page code has no byte for
    /// makes the whole translation fail with an input error, which shows the
    /// character and names the page code.
    pub fn encode(&self, text: &str) -> (bytes: Result<Vec<u8>, PrinterError>)
        ensures
            outcome(bytes) == translation(self.page(), text@),
            bytes is Ok <==> encodable(self.page(), text@),
            bytes matches Ok(bytes) ==> bytes@.len() == text@.len(),
    {
        let mut bytes: Vec<u8> = Vec::new();
        for c in chars: text.chars()
            invariant
                chars.seq() == text@,
                bytes@.len() == chars.index(),
                forall|j: int|
                    0 <= j < chars.index() ==> encoded_char(self.page(), #[trigger] text@[j])
                        == Some(bytes@[j]),
        {
            match self.encode_char(c) {
                Some(byte) => {
                    bytes.push(byte);
                },
                None => {
                    proof {
                        lemma_first_unmapped_is_unique(self.page(), text@, chars.index() as int);
                    }
                    return Err(unmapped_error(self.id(), c));
                },
            }
        }
        assert(bytes@ =~= encoded(self.page(), text@));
        Ok(bytes)
    }
}

/// The table of a page code, for a caller that switches the printer to it. A
/// page code without a table is an input error that names the page code;
/// there is no table to fall back on.
pub fn resolve(code: PageCode) -> (table: Result<CodePageTable, PrinterError>)
    ensures
        match table {
            Ok(table) => PageCodeTable::for_code(code) == Some(table.page()),
            Err(error) => PageCodeTable::for_code(code) is None && error@
                == PrinterErrorView::Input(no_table_message(code)),
        },
{
    match PageCodeTable::try_from(code) {
        Ok(id) => Ok(id.get_table()),
        Err(error) => Err(error),
    }
}

/// Translates `text` into the bytes that a printer switched to `code` prints
/// it from: one byte for each character, or an input error and no bytes at
/// all. The error is that of [`resolve`] for a page code without a table, and
/// else that of the first character that the page code has no byte for.
pub fn encode(code: PageCode, text: &str) -> (bytes: Result<Vec<u8>, PrinterError>)
    ensures
        outcome(bytes) == translation_for(code, text@),
        bytes is Ok <==> (PageCodeTable::for_code(code) matches Some(page) && encodable(
            page,
            text@,
        )),
        bytes matches Ok(bytes) ==> bytes@.len() == text@.len(),
{
    match resolve(code) {
        Ok(table) => table.encode(text),
        Err(error) => Err(error),
    }
}

/// Every table's identifier is found again from its page code, so what is
/// said of a table below is said of translating for its page code too.
pub proof fn lemma_table_of_its_code(page: PageCodeTable)
    ensures
        PageCodeTable::for_code(page.code()) == Some(page),
        forall|text: Seq<char>| #[trigger]
            translation_for(page.code(), text) == translation(page, text),
{
}

/// An ASCII character is translated to the byte of its own scalar value, on
/// every page code that has a table.
pub proof fn lemma_ascii_stands_for_itself(page: PageCodeTable, c: char)
    requires
        c as u32 <= 127,
    ensures
        translation(page, seq![c]) == Ok::<Seq<u8>, PrinterErrorView>(seq![c as u8]),
        translation_for(page.code(), seq![c]) == translation(page, seq![c]),
{
    assert(encodable(page, seq![c]));
    assert(encoded(page, seq![c]) =~= seq![c as u8]);
}

/// A character of a page's table is translated to its byte in the table, and
/// the table read from byte to character gives the character back.
pub proof fn lemma_table_round_trip(page: PageCodeTable, c: char)
    requires
        page.table().contains_key(c),
    ensures
        translation(page, seq![c]) == Ok::<Seq<u8>, PrinterErrorView>(seq![page.table()[c]]),
        translation_for(page.code(), seq![c]) == translation(page, seq![c]),
        page.char_of(page.table()[c]) == Some(c),
{
    lemma_characters_are_a_page(page);
    lemma_table_is_one_to_one(page);
    let chars = page.characters();
    let i = chars.index_of(c);
    assert(chars[i] == c);
    assert(c as u32 > 127);
    assert(encoded_char(page, c) == Some(page.table()[c]));
    assert(encodable(page, seq![c]));
    assert(encoded(page, seq![c]) =~= seq![page.table()[c]]);
}

/// A character above the ASCII range that the page's table lacks makes the
/// translation of a text fail, wherever in the text it stands: no part of the
/// text is translated.
pub proof fn lemma_unmapped_character_fails(page: PageCodeTable, text: Seq<char>, i: int)
    requires
        0 <= i < text.len(),
        encoded_char(page, text[i]) is None,
    ensures
        translation(page, text) is Err,
        translation(page, text)->Err_0 is Input,
{
}

/// The empty text is translated to no bytes: that is no error.
pub proof fn lemma_empty_text_has_no_bytes(page: PageCodeTable)
    ensures
        translation(page, Seq::<char>::empty()) == Ok::<Seq<u8>, PrinterErrorView>(
            Seq::<u8>::empty(),
        ),
        translation_for(page.code(), Seq::<char>::empty()) == translation(
            page,
            Seq::<char>::empty(),
        ),
{
    assert(encodable(page, Seq::<char>::empty()));
    assert(encoded(page, Seq::<char>::empty()) =~= Seq::<u8>::empty());
}

/// Translation depends on nothing but its arguments: whatever two calls of
/// [`encode`] with the same page code and the same text return, it is the same
/// bytes or the same error.
pub proof fn lemma_same_input_same_outcome(
    code: PageCode,
    text: &str,
    first: Result<Vec<u8>, PrinterError>,
    second: Result<Vec<u8>, PrinterError>,
)
    requires
        call_ensures(encode, (code, text), first),
        call_ensures(encode, (code, text), second),
    ensures
        outcome(first) == outcome(second),
{
}

} // verus!
