use chat_agent::chat::{classify_input, ChatInput};
use chat_agent::error::{Error, ErrorSource};

#[test]
fn exit_and_quit_end_the_chat() {
    assert!(matches!(classify_input("exit\n"), ChatInput::Quit));
    assert!(matches!(classify_input("  quit  "), ChatInput::Quit));
    assert!(matches!(classify_input("Exit"), ChatInput::Query(q) if q == "Exit"));
}

#[test]
fn blank_lines_ask_nothing() {
    assert!(matches!(classify_input("\n"), ChatInput::Empty));
    assert!(matches!(classify_input(""), ChatInput::Empty));
}

#[test]
fn other_lines_are_trimmed_questions() {
    assert!(matches!(classify_input("  what now?\r\n"), ChatInput::Query(q) if q == "what now?"));
}

#[test]
fn error_messages_name_their_kind() {
    assert_eq!(Error::Generic("g".to_string()).message(), "Generic error: g");
    assert_eq!(Error::OpenAI("o".to_string()).message(), "OpenAI error: o");
    assert_eq!(Error::Serde("s".to_string()).message(), "Serde error: s");
    assert_eq!(Error::Tool("t".to_string()).message(), "Tool error: t");
}

#[test]
fn outside_errors_are_converted() {
    assert!(matches!(Error::converted(ErrorSource::OpenAI, "x"), Error::OpenAI(t) if t == "OpenAIError: x"));
    assert!(matches!(Error::converted(ErrorSource::WebSearchToolArgs, "x"), Error::OpenAI(t) if t == "WebSearchToolArgsError: x"));
    assert!(matches!(Error::converted(ErrorSource::FunctionToolArgs, "x"), Error::OpenAI(t) if t == "FunctionToolArgsError: x"));
    assert!(matches!(Error::converted(ErrorSource::SerdeJson, "x"), Error::Serde(t) if t == "SerdeJson: x"));
}
