//! The character tables of the page codes that text can be translated for.
//!
//! A page code gives each byte from 128 to 255 one character; the bytes below
//! 128 are ASCII on every page. Each table is written down once, as its
//! characters in byte order, and everything else is derived from that.

use crate::domain::page_code::PageCode;
use crate::errors::PrinterError;
use crate::errors::PrinterErrorView;
use std::collections::HashMap;
use vstd::prelude::*;

verus! {

/// The characters of page code PC437 for the bytes 128 to 255, in byte order.
pub const PC437_CHARS: [char; 128] = [
    'Ç', 'ü', 'é', 'â', 'ä', 'à', 'å', 'ç', 'ê', 'ë', 'è', 'ï', 'î', 'ì', 'Ä', 'Å',
    'É', 'æ', 'Æ', 'ô', 'ö', 'ò', 'û', 'ù', 'ÿ', 'Ö', 'Ü', '¢', '£', '¥', '₧', 'ƒ',
    'á', 'í', 'ó', 'ú', 'ñ', 'Ñ', 'ª', 'º', '¿', '⌐', '¬', '½', '¼', '¡', '«', '»',
    '░', '▒', '▓', '│', '┤', '╡', '╢', '╖', '╕', '╣', '║', '╗', '╝', '╜', '╛', '┐',
    '└', '┴', '┬', '├', '─', '┼', '╞', '╟', '╚', '╔', '╩', '╦', '╠', '═', '╬', '╧',
    '╨', '╤', '╥', '╙', '╘', '╒', '╓', '╫', '╪', '┘', '┌', '█', '▄', '▌', '▐', '▀',
    'α', 'ß', 'Γ', 'π', 'Σ', 'σ', 'µ', 'τ', 'Φ', 'Θ', 'Ω', 'δ', '∞', 'φ', 'ε', '∩',
    '≡', '±', '≥', '≤', '⌠', '⌡', '÷', '≈', '°', '∙', '·', '√', 'ⁿ', '²', '■', '\u{A0}',
];

/// The characters of page code PC852 for the bytes 128 to 255, in byte order.
pub const PC852_CHARS: [char; 128] = [
    'Ç', 'ü', 'é', 'â', 'ä', 'ů', 'ć', 'ç', 'ł', 'ë', 'Ő', 'ő', 'î', 'Ź', 'Ä', 'Ć',
    'É', 'Ĺ', 'ĺ', 'ô', 'ö', 'Ľ', 'ľ', 'Ś', 'ś', 'Ö', 'Ü', 'Ť', 'ť', 'Ł', '×', 'č',
    'á', 'í', 'ó', 'ú', 'Ą', 'ą', 'Ž', 'ž', 'Ę', 'ę', '¬', 'ź', 'Č', 'ş', '«', '»',
    '░', '▒', '▓', '│', '┤', 'Á', 'Â', 'Ě', 'Ş', '╣', '║', '╗', '╝', 'Ż', 'ż', '┐',
    '└', '┴', '┬', '├', '─', '┼', 'Ă', 'ă', '╚', '╔', '╩', '╦', '╠', '═', '╬', '¤',
    'đ', 'Đ', 'Ď', 'Ë', 'ď', 'Ň', 'Í', 'Î', 'ě', '┘', '┌', '█', '▄', 'Ţ', 'Ů', '▀',
    'Ó', 'ß', 'Ô', 'Ń', 'ń', 'ň', 'Š', 'š', 'Ŕ', 'Ú', 'ŕ', 'Ű', 'ý', 'Ý', 'ţ', '´',
    '\u{AD}', '˝', '˛', 'ˇ', '˘', '§', '÷', '¸', '°', '¨', '˙', 'ű', 'Ř', 'ř', '■', '\u{A0}',
];

/// The characters of page code PC858 for the bytes 128 to 255, in byte order.
pub const PC858_CHARS: [char; 128] = [
    'Ç', 'ü', 'é', 'â', 'ä', 'à', 'å', 'ç', 'ê', 'ë', 'è', 'ï', 'î', 'ì', 'Ä', 'Å',
    'É', 'æ', 'Æ', 'ô', 'ö', 'ò', 'û', 'ù', 'ÿ', 'Ö', 'Ü', 'ø', '£', 'Ø', '×', 'ƒ',
    'á', 'í', 'ó', 'ú', 'ñ', 'Ñ', 'ª', 'º', '¿', '®', '¬', '½', '¼', '¡', '«', '»',
    '░', '▒', '▓', '│', '┤', 'Á', 'Â', 'À', '©', '╣', '║', '╗', '╝', '¢', '¥', '┐',
    '└', '┴', '┬', '├', '─', '┼', 'ã', 'Ã', '╚', '╔', '╩', '╦', '╠', '═', '╬', '¤',
    'ð', 'Ð', 'Ê', 'Ë', 'È', '€', 'Í', 'Î', 'Ï', '┘', '┌', '█', '▄', '¦', 'Ì', '▀',
    'Ó', 'ß', 'Ô', 'Ò', 'õ', 'Õ', 'µ', 'þ', 'Þ', 'Ú', 'Û', 'Ù', 'ý', 'Ý', '¯', '´',
    '\u{AD}', '±', '‗', '¾', '¶', '§', '÷', '¸', '°', '¨', '·', '¹', '³', '²', '■', '\u{A0}',
];

/// The characters of page code PC865 for the bytes 128 to 255, in byte order.
pub const PC865_CHARS: [char; 128] = [
    'Ç', 'ü', 'é', 'â', 'ä', 'à', 'å', 'ç', 'ê', 'ë', 'è', 'ï', 'î', 'ì', 'Ä', 'Å',
    'É', 'æ', 'Æ', 'ô', 'ö', 'ò', 'û', 'ù', 'ÿ', 'Ö', 'Ü', 'ø', '£', 'Ø', '₧', 'ƒ',
    'á', 'í', 'ó', 'ú', 'ñ', 'Ñ', 'ª', 'º', '¿', '⌐', '¬', '½', '¼', '¡', '«', '¤',
    '░', '▒', '▓', '│', '┤', '╡', '╢', '╖', '╕', '╣', '║', '╗', '╝', '╜', '╛', '┐',
    '└', '┴', '┬', '├', '─', '┼', '╞', '╟', '╚', '╔', '╩', '╦', '╠', '═', '╬', '╧',
    '╨', '╤', '╥', '╙', '╘', '╒', '╓', '╫', '╪', '┘', '┌', '█', '▄', '▌', '▐', '▀',
    'α', 'ß', 'Γ', 'π', 'Σ', 'σ', 'µ', 'τ', 'Φ', 'Θ', 'Ω', 'δ', '∞', 'φ', 'ε', '∩',
    '≡', '±', '≥', '≤', '⌠', '⌡', '÷', '≈', '°', '∙', '·', '√', 'ⁿ', '²', '■', '\u{A0}',
];

/// The page codes that have a character table.
#[derive(Debug, Clone, Copy, PartialEq, Eq, Structural)]
pub enum PageCodeTable {
    PC437,
    PC852,
    PC858,
    PC865,
}

/// Whether `chars` can serve as the table of a page code: one character for
/// each byte from 128 to 255, none of them twice, and none of them in the
/// ASCII range, whose bytes stand for themselves.
pub open spec fn is_page(chars: Seq<char>) -> bool {
    &&& chars.len() == 128
    &&& chars.no_duplicates()
    &&& forall|i: int| 0 <= i < chars.len() ==> #[trigger] chars[i] as u32 > 127
}

impl PageCodeTable {
    /// The characters of the page for the bytes 128 to 255: the character at
    /// position `i` is printed for the byte `128 + i`.
    #[verifier::opaque]
    pub open spec fn characters(self) -> Seq<char> {
        match self {
            PageCodeTable::PC437 => PC437_CHARS@,
            PageCodeTable::PC852 => PC852_CHARS@,
            PageCodeTable::PC858 => PC858_CHARS@,
            PageCodeTable::PC865 => PC865_CHARS@,
        }
    }

    /// The table's identifier for a page code, if the page code has a table.
    pub open spec fn for_code(code: PageCode) -> Option<PageCodeTable> {
        match code {
            PageCode::PC437 => Some(PageCodeTable::PC437),
            PageCode::PC852 => Some(PageCodeTable::PC852),
            PageCode::PC858 => Some(PageCodeTable::PC858),
            PageCode::PC865 => Some(PageCodeTable::PC865),
            _ => None,
        }
    }

    /// The page code that this table belongs to.
    pub open spec fn code(self) -> PageCode {
        match self {
            PageCodeTable::PC437 => PageCode::PC437,
            PageCodeTable::PC852 => PageCode::PC852,
            PageCodeTable::PC858 => PageCode::PC858,
            PageCodeTable::PC865 => PageCode::PC865,
        }
    }

    /// The byte that the page has for the character `c`, if it has one.
    pub open spec fn byte_of(self, c: char) -> Option<u8> {
        if self.characters().contains(c) {
            Some((128 + self.characters().index_of(c)) as u8)
        } else {
            None
        }
    }

    /// The character that the page prints for `byte`, for the bytes that the
    /// table covers.
    pub open spec fn char_of(self, byte: u8) -> Option<char> {
        if byte >= 128 {
            Some(self.characters()[byte - 128])
        } else {
            None
        }
    }

    /// The table as a map from each character of the page to its byte.
    pub open spec fn table(self) -> Map<char, u8> {
        Map::new(|c: char| self.byte_of(c) is Some, |c: char| self.byte_of(c)->0)
    }

    /// The page code that this table belongs to.
    pub fn page_code(&self) -> (code: PageCode)
        ensures
            code == self.code(),
    {
        match self {
            PageCodeTable::PC437 => PageCode::PC437,
            PageCodeTable::PC852 => PageCode::PC852,
            PageCodeTable::PC858 => PageCode::PC858,
            PageCodeTable::PC865 => PageCode::PC865,
        }
    }

    /// The character at position `index` of the page.
    fn character(&self, index: usize) -> (c: char)
        requires
            index < 128,
        ensures
            c == self.characters()[index as int],
    {
        proof {
            reveal(PageCodeTable::characters);
        }
        match self {
            PageCodeTable::PC437 => PC437_CHARS[index],
            PageCodeTable::PC852 => PC852_CHARS[index],
            PageCodeTable::PC858 => PC858_CHARS[index],
            PageCodeTable::PC865 => PC865_CHARS[index],
        }
    }

    /// The character that the page prints for `byte`: the table read from
    /// byte to character. The bytes below 128 are not the table's.
    pub fn char_at(&self, byte: u8) -> (c: Option<char>)
        ensures
            c == self.char_of(byte),
    {
        if byte >= 128 {
            Some(self.character((byte - 128) as usize))
        } else {
            None
        }
    }

    /// Get the table for the page code.
    pub fn get_table(&self) -> (table: CodePageTable)
        ensures
            table.page() == *self,
            table@ == self.table(),
    {
        let mut bytes: HashMap<u32, u8> = HashMap::new();
        let mut index: usize = 0;
        proof {
            lemma_characters_are_a_page(*self);
        }
        while index < 128
            invariant
                index <= 128,
                is_page(self.characters()),
                holds_prefix(bytes@, self.characters(), index as int),
            decreases 128 - index,
        {
            let c = self.character(index);
            proof {
                lemma_prefix_grows(bytes@, self.characters(), index as int, c);
            }
            bytes.insert(c as u32, (128 + index) as u8);
            index += 1;
        }
        CodePageTable { id: *self, bytes }
    }
}

/// The table of one page code, built for lookups by character. Its view is
/// the map from each character of the page to its byte.
#[derive(Debug)]
pub struct CodePageTable {
    id: PageCodeTable,
    bytes: HashMap<u32, u8>,
}

impl View for CodePageTable {
    type V = Map<char, u8>;

    open spec fn view(&self) -> Map<char, u8> {
        self.page().table()
    }
}

impl CodePageTable {
    /// The map holds the whole page and nothing else.
    #[verifier::type_invariant]
    spec fn holds_its_page(self) -> bool {
        holds_prefix(self.bytes@, self.id.characters(), 128)
    }

    /// The page code whose table this is.
    pub closed spec fn page(self) -> PageCodeTable {
        self.id
    }

    /// The page code whose table this is.
    pub fn id(&self) -> (id: PageCodeTable)
        ensures
            id == self.page(),
    {
        self.id
    }

    /// The number of characters in the table.
    pub fn len(&self) -> (count: usize)
        ensures
            count == self@.len(),
            count == 128,
    {
        proof {
            use_type_invariant(self);
            lemma_table_is_one_to_one(self.id);
        }
        self.bytes.len()
    }

    /// The byte that the table has for the character `c`, if it has one.
    pub fn get(&self, c: char) -> (byte: Option<u8>)
        ensures
            byte == self@.get(c),
            byte == self.page().byte_of(c),
    {
        proof {
            use_type_invariant(self);
            lemma_characters_are_a_page(self.id);
            lemma_lookup(self.bytes@, self.id.characters(), c);
        }
        match self.bytes.get(&(c as u32)) {
            Some(byte) => Some(*byte),
            None => None,
        }
    }
}

/// The message of the error for a page code that has no table.
pub open spec fn no_table_message(code: PageCode) -> Seq<char> {
    "no table for this page code: "@ + code.name_text()
}

impl TryFrom<PageCode> for PageCodeTable {
    type Error = PrinterError;

    /// The table's identifier for a page code that has a table, and else an
    /// input error that names the page code.
    fn try_from(value: PageCode) -> (table: Result<Self, PrinterError>)
        ensures
            match table {
                Ok(id) => PageCodeTable::for_code(value) == Some(id),
                Err(error) => PageCodeTable::for_code(value) is None && error@
                    == PrinterErrorView::Input(no_table_message(value)),
            },
    {
        match value {
            PageCode::PC437 => Ok(PageCodeTable::PC437),
            PageCode::PC852 => Ok(PageCodeTable::PC852),
            PageCode::PC858 => Ok(PageCodeTable::PC858),
            PageCode::PC865 => Ok(PageCodeTable::PC865),
            _ => Err(
                PrinterError::Input(
                    String::from_str("no table for this page code: ").concat(value.name()),
                ),
            ),
        }
    }
}

impl vstd::std_specs::convert::TryFromSpecImpl<PageCode> for PageCodeTable {
    open spec fn obeys_try_from_spec() -> bool {
        false
    }

    open spec fn try_from_spec(value: PageCode) -> Result<Self, PrinterError> {
        arbitrary()
    }
}

/// The scalar value of the character at position `j`.
spec fn scalar_at(chars: Seq<char>, j: int) -> u32 {
    chars[j] as u32
}

/// Whether `bytes` holds exactly the first `count` characters of `chars`,
/// each under its scalar value and with the byte of its position.
spec fn holds_prefix(bytes: Map<u32, u8>, chars: Seq<char>, count: int) -> bool {
    &&& bytes.dom().finite()
    &&& bytes.len() == count
    &&& forall|k: u32| #[trigger]
        bytes.contains_key(k) ==> exists|j: int| 0 <= j < count && scalar_at(chars, j) == k
    &&& forall|j: int|
        0 <= j < count ==> {
            &&& #[trigger] scalar_at(chars, j) == chars[j] as int
            &&& bytes.contains_key(scalar_at(chars, j))
            &&& bytes[scalar_at(chars, j)] == 128 + j
        }
}

/// One more character can be taken into a map that holds the characters
/// before it.
proof fn lemma_prefix_grows(bytes: Map<u32, u8>, chars: Seq<char>, count: int, c: char)
    requires
        is_page(chars),
        0 <= count < 128,
        c == chars[count],
        holds_prefix(bytes, chars, count),
    ensures
        holds_prefix(bytes.insert(c as u32, (128 + count) as u8), chars, count + 1),
{
    let key = c as u32;
    let grown = bytes.insert(key, (128 + count) as u8);
    assert(scalar_at(chars, count) == key);
    if bytes.contains_key(key) {
        let j = choose|j: int| 0 <= j < count && scalar_at(chars, j) == key;
        assert(chars[j] == chars[count]);
    }
    assert forall|k: u32| #[trigger] grown.contains_key(k) implies exists|j: int|
        0 <= j < count + 1 && scalar_at(chars, j) == k by {
        if k == key {
            assert(scalar_at(chars, count) == k);
        } else {
            let j = choose|j: int| 0 <= j < count && scalar_at(chars, j) == k;
            assert(0 <= j < count + 1 && scalar_at(chars, j) == k);
        }
    }
    assert forall|j: int| 0 <= j < count + 1 implies {
        &&& #[trigger] scalar_at(chars, j) == chars[j] as int
        &&& grown.contains_key(scalar_at(chars, j))
        &&& grown[scalar_at(chars, j)] == 128 + j
    } by {
        if j < count {
            assert(chars[j] != chars[count]);
        }
    }
}

/// A map that holds a whole page answers for a character what the page says.
proof fn lemma_lookup(bytes: Map<u32, u8>, chars: Seq<char>, c: char)
    requires
        is_page(chars),
        holds_prefix(bytes, chars, 128),
    ensures
        bytes.contains_key(c as u32) <==> chars.contains(c),
        chars.contains(c) ==> bytes[c as u32] == 128 + chars.index_of(c),
{
    if bytes.contains_key(c as u32) {
        let j = choose|j: int| 0 <= j < 128 && scalar_at(chars, j) == c as u32;
        assert(scalar_at(chars, j) == chars[j] as int);
        assert(chars[j] == c);
    }
    if chars.contains(c) {
        let i = chars.index_of(c);
        assert(chars[i] == c);
        assert(scalar_at(chars, i) == c as u32);
    }
}

proof fn lemma_pc437_is_a_page()
    ensures
        is_page(PC437_CHARS@),
{
}

proof fn lemma_pc852_is_a_page()
    ensures
        is_page(PC852_CHARS@),
{
}

proof fn lemma_pc858_is_a_page()
    ensures
        is_page(PC858_CHARS@),
{
}

proof fn lemma_pc865_is_a_page()
    ensures
        is_page(PC865_CHARS@),
{
}

/// The characters of every page code are a page: 128 of them, all different,
/// none in the ASCII range.
pub proof fn lemma_characters_are_a_page(page: PageCodeTable)
    ensures
        is_page(page.characters()),
{
    reveal(PageCodeTable::characters);
    match page {
        PageCodeTable::PC437 => lemma_pc437_is_a_page(),
        PageCodeTable::PC852 => lemma_pc852_is_a_page(),
        PageCodeTable::PC858 => lemma_pc858_is_a_page(),
        PageCodeTable::PC865 => lemma_pc865_is_a_page(),
    }
}

/// The position of a character in a page decides its byte: the character at
/// position `i` has the byte `128 + i`, and that byte is printed as this
/// character.
pub proof fn lemma_position_decides_byte(page: PageCodeTable, i: int)
    requires
        0 <= i < 128,
    ensures
        page.byte_of(page.characters()[i]) == Some((128 + i) as u8),
        page.char_of((128 + i) as u8) == Some(page.characters()[i]),
{
    lemma_characters_are_a_page(page);
    let chars = page.characters();
    assert(chars.contains(chars[i]));
}

/// Every table has exactly 128 entries, which take each byte from 128 to 255
/// once: no character stands twice in a table, and no byte.
pub proof fn lemma_table_is_one_to_one(page: PageCodeTable)
    ensures
        page.characters().len() == 128,
        page.characters().no_duplicates(),
        page.table().dom().finite(),
        page.table().len() == 128,
        forall|c: char| #[trigger]
            page.table().contains_key(c) ==> page.table()[c] >= 128 && page.char_of(
                page.table()[c],
            ) == Some(c),
        forall|byte: u8|
            byte >= 128 ==> page.table().contains_key(#[trigger] page.char_of(byte)->0)
                && page.table()[page.char_of(byte)->0] == byte,
        forall|c: char, d: char|
            #![trigger page.table()[c], page.table()[d]]
            page.table().contains_key(c) && page.table().contains_key(d) && page.table()[c]
                == page.table()[d] ==> c == d,
{
    lemma_characters_are_a_page(page);
    let chars = page.characters();
    chars.unique_seq_to_set();
    assert(page.table().dom() =~= chars.to_set());
    assert forall|byte: u8| byte >= 128 implies page.table().contains_key(
        #[trigger] page.char_of(byte)->0,
    ) && page.table()[page.char_of(byte)->0] == byte by {
        lemma_position_decides_byte(page, byte - 128);
    }
}

} // verus!
