use tamagotchi::command::{normalize, Command};
use tamagotchi::text::{decimal, same_text};

#[test]
fn words_for_feeding() {
    assert_eq!(Command::from_word("1"), Command::Feed);
    assert_eq!(Command::from_word("alimentar"), Command::Feed);
    assert_eq!(Command::from_word("a"), Command::Feed);
}

#[test]
fn words_for_playing() {
    assert_eq!(Command::from_word("2"), Command::Play);
    assert_eq!(Command::from_word("jugar"), Command::Play);
    assert_eq!(Command::from_word("j"), Command::Play);
}

#[test]
fn words_for_quitting() {
    assert_eq!(Command::from_word("3"), Command::Quit);
    assert_eq!(Command::from_word("salir"), Command::Quit);
    assert_eq!(Command::from_word("q"), Command::Quit);
}

#[test]
fn other_words_are_invalid() {
    for word in ["", "4", "0", "x", "alimenta", "alimentarr", "jugar ", " q", "Q", "SALIR", "11", "a1", "quit"] {
        assert_eq!(Command::from_word(word), Command::Invalid, "{:?}", word);
    }
}

#[test]
fn normalize_trims_and_lowercases() {
    assert_eq!(normalize("  SaLiR \n"), Some(String::from("salir")));
    assert_eq!(normalize("Q\r\n"), Some(String::from("q")));
    assert_eq!(normalize("\t1 "), Some(String::from("1")));
    assert_eq!(normalize("dos palabras\n"), Some(String::from("dos palabras")));
    assert_eq!(normalize("\u{c1}RBOL"), Some(String::from("\u{e1}rbol")));
}

#[test]
fn normalize_gives_none_for_blank_lines() {
    assert_eq!(normalize(""), None);
    assert_eq!(normalize("\n"), None);
    assert_eq!(normalize("   \t \r\n"), None);
    assert_eq!(normalize("\u{a0}\u{2003}"), None);
}

#[test]
fn decode_reads_lines_as_typed() {
    assert_eq!(Command::decode("alimentar\n"), Command::Feed);
    assert_eq!(Command::decode("  A  \n"), Command::Feed);
    assert_eq!(Command::decode("1\n"), Command::Feed);
    assert_eq!(Command::decode("JUGAR\n"), Command::Play);
    assert_eq!(Command::decode("j"), Command::Play);
    assert_eq!(Command::decode(" 2\r\n"), Command::Play);
    assert_eq!(Command::decode("Salir\n"), Command::Quit);
    assert_eq!(Command::decode("Q\n"), Command::Quit);
    assert_eq!(Command::decode("3"), Command::Quit);
}

#[test]
fn decode_takes_an_empty_line_as_waiting() {
    assert_eq!(Command::decode(""), Command::Wait);
    assert_eq!(Command::decode("\n"), Command::Wait);
    assert_eq!(Command::decode("  \t\n"), Command::Wait);
}

#[test]
fn decode_rejects_everything_else() {
    assert_eq!(Command::decode("comer\n"), Command::Invalid);
    assert_eq!(Command::decode("4\n"), Command::Invalid);
    assert_eq!(Command::decode("a b\n"), Command::Invalid);
    assert_eq!(Command::decode("salir ya\n"), Command::Invalid);
    assert_eq!(Command::decode("-1\n"), Command::Invalid);
}

#[test]
fn same_text_compares_characters() {
    assert!(same_text("", ""));
    assert!(same_text("salir", "salir"));
    assert!(same_text("¿Qué?", "¿Qué?"));
    assert!(!same_text("salir", "sali"));
    assert!(!same_text("sali", "salir"));
    assert!(!same_text("salir", "salix"));
    assert!(!same_text("a", ""));
    assert!(!same_text("é", "e"));
}

#[test]
fn decimal_writes_every_byte_as_std_does() {
    assert_eq!(decimal(0), "0");
    assert_eq!(decimal(5), "5");
    assert_eq!(decimal(9), "9");
    assert_eq!(decimal(10), "10");
    assert_eq!(decimal(47), "47");
    assert_eq!(decimal(99), "99");
    assert_eq!(decimal(100), "100");
    assert_eq!(decimal(101), "101");
    assert_eq!(decimal(255), "255");
    for n in 0..=255u8 {
        assert_eq!(decimal(n), format!("{}", n));
    }
}
