use mcpi::connection::commands::{ChatPost, SerializableCommand};
use mcpi::connection::{ApiStr, ChatString, ChatStringError};
use mcpi::util::Cp437String;

#[test]
fn api_str_and_chat_string_allow_special_characters() {
    let string = ChatString::from_str_lossy("I am so happy ♥");
    let command = ChatPost { message: string };
    assert_eq!(
        command.to_command_bytes(),
        b"chat.post(I am so happy \x03)\n"
    );
    let string = ApiStr::new("I am so happy ♥").unwrap();
    assert_eq!(string.to_string(), "I am so happy ♥");
}

#[test]
fn test_cp437_to_string() {
    assert_eq!(Cp437String(vec![0, 1, 2, 3]).to_string(), "\0☺☻♥");
}

#[test]
fn test_str_to_cp437() {
    assert_eq!(
        Cp437String::from_utf8("☺☻♥♦"),
        Some(Cp437String(vec![1, 2, 3, 4]))
    );
    assert_eq!(Cp437String::from_utf8("☺\r"), None);
}

#[test]
fn test_str_to_cp437_lossy() {
    assert_eq!(Cp437String::from_utf8_lossy("☺☻♥♦").0, vec![1, 2, 3, 4]);
    assert_eq!(
        Cp437String::from_utf8_lossy("☺☻♥♦\r").0,
        vec![1, 2, 3, 4, 63] // last char is the "?" symbol
    );
}

#[test]
fn cp437_into_inner_returns_the_bytes() {
    assert_eq!(Cp437String(vec![65, 66]).into_inner(), vec![65, 66]);
}

#[test]
fn cp437_round_trip_through_utf8() {
    let text = "Hello ☺ world";
    let encoded = Cp437String::from_utf8(text).unwrap();
    assert_eq!(encoded.to_string(), text);
}

#[test]
fn api_str_rejects_newlines() {
    assert!(ApiStr::new("one\ntwo").is_err());
    assert!(ApiStr::new("one two").is_ok());
}

#[test]
fn chat_string_from_str_rejects_newlines() {
    assert_eq!(
        ChatString::from_str("a\nb").unwrap_err(),
        ChatStringError::Newline
    );
}

#[test]
fn chat_string_from_str_rejects_unencodable_text() {
    assert_eq!(
        ChatString::from_str("日本").unwrap_err(),
        ChatStringError::CP437
    );
}

#[test]
fn chat_string_round_trips_ascii() {
    let cs = ChatString::from_str("plain words").unwrap();
    assert_eq!(cs.to_utf8(), "plain words");
}

#[test]
fn chat_string_lossy_replaces_newline_with_question_mark() {
    let cs = ChatString::from_str_lossy("a\nb");
    assert_eq!(cs.as_bytes(), &vec![97, 63, 98]);
}
