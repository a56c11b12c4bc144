use escpos::domain::page_codes::PageCodeTable;
use escpos::domain::PageCode;
use escpos::errors::PrinterError;
use std::collections::HashSet;

const TABLES: [PageCodeTable; 4] = [
    PageCodeTable::PC437,
    PageCodeTable::PC852,
    PageCodeTable::PC858,
    PageCodeTable::PC865,
];

const WITHOUT_TABLE: [PageCode; 12] = [
    PageCode::Katakana,
    PageCode::PC850,
    PageCode::PC860,
    PageCode::PC863,
    PageCode::Hiragana,
    PageCode::PC851,
    PageCode::PC853,
    PageCode::PC857,
    PageCode::PC737,
    PageCode::ISO8859_7,
    PageCode::WPC1252,
    PageCode::PC866,
];

fn byte_of(page: PageCodeTable, c: char) -> Option<u8> {
    page.get_table().get(c)
}

#[test]
fn every_table_has_128_entries() {
    for page in TABLES {
        assert_eq!(page.get_table().len(), 128);
    }
}

#[test]
fn every_byte_from_128_has_one_character() {
    for page in TABLES {
        let table = page.get_table();
        let mut seen = HashSet::new();
        for byte in 128..=255u8 {
            let c = match page.char_at(byte) {
                Some(c) => c,
                None => panic!("{:?} has no character for byte {}", page, byte),
            };
            assert!(seen.insert(c), "{:?} has {:?} twice", page, c);
            assert_eq!(table.get(c), Some(byte));
        }
        assert_eq!(seen.len(), 128);
    }
}

#[test]
fn no_table_holds_an_ascii_character() {
    for page in TABLES {
        let table = page.get_table();
        for scalar in 0..=127u8 {
            assert_eq!(table.get(char::from(scalar)), None);
        }
        for byte in 128..=255u8 {
            assert!(page.char_at(byte).map_or(false, |c| !c.is_ascii()));
        }
    }
}

#[test]
fn bytes_below_128_are_not_in_a_table() {
    for page in TABLES {
        for byte in 0..=127u8 {
            assert_eq!(page.char_at(byte), None);
        }
    }
}

#[test]
fn table_knows_its_page() {
    for page in TABLES {
        assert_eq!(page.get_table().id(), page);
    }
}

#[test]
fn pc437_entries() {
    let page = PageCodeTable::PC437;
    assert_eq!(byte_of(page, 'Ç'), Some(0x80));
    assert_eq!(byte_of(page, 'é'), Some(0x82));
    assert_eq!(byte_of(page, 'à'), Some(0x85));
    assert_eq!(byte_of(page, '¢'), Some(0x9B));
    assert_eq!(byte_of(page, '¿'), Some(0xA8));
    assert_eq!(byte_of(page, '⌐'), Some(0xA9));
    assert_eq!(byte_of(page, '░'), Some(0xB0));
    assert_eq!(byte_of(page, 'ß'), Some(0xE1));
    assert_eq!(byte_of(page, '■'), Some(0xFE));
    assert_eq!(byte_of(page, '\u{A0}'), Some(0xFF));
    assert_eq!(byte_of(page, '€'), None);
    assert_eq!(byte_of(page, 'ø'), None);
}

#[test]
fn pc852_entries() {
    let page = PageCodeTable::PC852;
    assert_eq!(byte_of(page, 'Ç'), Some(0x80));
    assert_eq!(byte_of(page, 'ů'), Some(0x85));
    assert_eq!(byte_of(page, 'ł'), Some(0x88));
    assert_eq!(byte_of(page, 'Ł'), Some(0x9D));
    assert_eq!(byte_of(page, 'č'), Some(0x9F));
    assert_eq!(byte_of(page, 'Ž'), Some(0xA6));
    assert_eq!(byte_of(page, '¤'), Some(0xCF));
    assert_eq!(byte_of(page, '\u{AD}'), Some(0xF0));
    assert_eq!(byte_of(page, 'ř'), Some(0xFD));
    assert_eq!(byte_of(page, '\u{A0}'), Some(0xFF));
    assert_eq!(byte_of(page, 'à'), None);
    assert_eq!(byte_of(page, '€'), None);
}

#[test]
fn pc858_entries() {
    let page = PageCodeTable::PC858;
    assert_eq!(byte_of(page, 'Ç'), Some(0x80));
    assert_eq!(byte_of(page, 'é'), Some(0x82));
    assert_eq!(byte_of(page, 'à'), Some(0x85));
    assert_eq!(byte_of(page, 'ø'), Some(0x9B));
    assert_eq!(byte_of(page, '¿'), Some(0xA8));
    assert_eq!(byte_of(page, '®'), Some(0xA9));
    assert_eq!(byte_of(page, 'À'), Some(0xB7));
    assert_eq!(byte_of(page, '€'), Some(0xD5));
    assert_eq!(byte_of(page, 'Ô'), Some(0xE2));
    assert_eq!(byte_of(page, 'Ò'), Some(0xE3));
    assert_eq!(byte_of(page, '\u{AD}'), Some(0xF0));
    assert_eq!(byte_of(page, '\u{A0}'), Some(0xFF));
    assert_eq!(byte_of(page, '⌐'), None);
    assert_eq!(byte_of(page, '₧'), None);
}

#[test]
fn pc865_entries() {
    let page = PageCodeTable::PC865;
    assert_eq!(byte_of(page, 'Ç'), Some(0x80));
    assert_eq!(byte_of(page, 'ø'), Some(0x9B));
    assert_eq!(byte_of(page, 'Ø'), Some(0x9D));
    assert_eq!(byte_of(page, '₧'), Some(0x9E));
    assert_eq!(byte_of(page, '¤'), Some(0xAF));
    assert_eq!(byte_of(page, '■'), Some(0xFE));
    assert_eq!(byte_of(page, '\u{A0}'), Some(0xFF));
    assert_eq!(byte_of(page, '»'), None);
    assert_eq!(byte_of(page, '€'), None);
}

#[test]
fn position_decides_the_byte() {
    assert_eq!(PageCodeTable::PC437.char_at(128), Some('Ç'));
    assert_eq!(PageCodeTable::PC437.char_at(255), Some('\u{A0}'));
    assert_eq!(PageCodeTable::PC852.char_at(0x9D), Some('Ł'));
    assert_eq!(PageCodeTable::PC858.char_at(0xD5), Some('€'));
    assert_eq!(PageCodeTable::PC865.char_at(0xAF), Some('¤'));
}

#[test]
fn tables_differ_where_the_pages_differ() {
    assert_eq!(PageCodeTable::PC437.char_at(0xD5), Some('╒'));
    assert_eq!(PageCodeTable::PC852.char_at(0xD5), Some('Ň'));
    assert_eq!(PageCodeTable::PC858.char_at(0xD5), Some('€'));
    assert_eq!(PageCodeTable::PC865.char_at(0xD5), Some('╒'));
}

#[test]
fn characters_beyond_the_basic_plane_have_no_byte() {
    for page in TABLES {
        assert_eq!(page.get_table().get('😀'), None);
        assert_eq!(page.get_table().get('\u{10FFFF}'), None);
    }
}

#[test]
fn page_codes_with_a_table_convert() {
    assert_eq!(PageCodeTable::try_from(PageCode::PC437).unwrap(), PageCodeTable::PC437);
    assert_eq!(PageCodeTable::try_from(PageCode::PC852).unwrap(), PageCodeTable::PC852);
    assert_eq!(PageCodeTable::try_from(PageCode::PC858).unwrap(), PageCodeTable::PC858);
    assert_eq!(PageCodeTable::try_from(PageCode::PC865).unwrap(), PageCodeTable::PC865);
}

#[test]
fn page_codes_without_a_table_are_input_errors() {
    for code in WITHOUT_TABLE {
        match PageCodeTable::try_from(code) {
            Err(PrinterError::Input(message)) => {
                assert_eq!(message, format!("no table for this page code: {}", code.name()));
            }
            other => panic!("{:?} gave {:?}", code, other),
        }
    }
}

#[test]
fn katakana_has_no_table() {
    let error = PageCodeTable::try_from(PageCode::Katakana).unwrap_err();
    assert_eq!(error.to_string(), "Input error: no table for this page code: Katakana");
}

#[test]
fn conversion_and_page_code_are_inverse() {
    for page in TABLES {
        assert_eq!(PageCodeTable::try_from(page.page_code()).unwrap(), page);
    }
    assert_eq!(PageCodeTable::PC437.page_code(), PageCode::PC437);
    assert_eq!(PageCodeTable::PC852.page_code(), PageCode::PC852);
    assert_eq!(PageCodeTable::PC858.page_code(), PageCode::PC858);
    assert_eq!(PageCodeTable::PC865.page_code(), PageCode::PC865);
}

#[test]
fn page_codes_have_their_names() {
    assert_eq!(PageCode::PC437.name(), "PC437");
    assert_eq!(PageCode::Katakana.name(), "Katakana");
    assert_eq!(PageCode::PC850.name(), "PC850");
    assert_eq!(PageCode::PC860.name(), "PC860");
    assert_eq!(PageCode::PC863.name(), "PC863");
    assert_eq!(PageCode::PC865.name(), "PC865");
    assert_eq!(PageCode::Hiragana.name(), "Hiragana");
    assert_eq!(PageCode::PC851.name(), "PC851");
    assert_eq!(PageCode::PC853.name(), "PC853");
    assert_eq!(PageCode::PC857.name(), "PC857");
    assert_eq!(PageCode::PC737.name(), "PC737");
    assert_eq!(PageCode::ISO8859_7.name(), "ISO8859_7");
    assert_eq!(PageCode::WPC1252.name(), "WPC1252");
    assert_eq!(PageCode::PC866.name(), "PC866");
    assert_eq!(PageCode::PC852.name(), "PC852");
    assert_eq!(PageCode::PC858.name(), "PC858");
}
