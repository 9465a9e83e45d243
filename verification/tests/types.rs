//! The command line names of warning and message types, and the
//! standard JSON names.

use era_compiler_vyper::message_type::MessageType;
use era_compiler_vyper::vyper::standard_json::input::language::Language;
use era_compiler_vyper::vyper::standard_json::input::settings::evm_version::EVMVersion;
use era_compiler_vyper::vyper::standard_json::output::error::Error;
use era_compiler_vyper::warning_type::WarningType;

fn strings(items: &[&str]) -> Vec<String> {
    items.iter().map(|item| item.to_string()).collect()
}

#[test]
fn warning_types_parsed() {
    assert_eq!(WarningType::from_str("txorigin"), Ok(WarningType::TxOrigin));
    assert_eq!(
        WarningType::from_str("ecrecover"),
        Err("invalid warning type: ecrecover".to_owned())
    );
    assert_eq!(WarningType::TxOrigin.to_string(), "txorigin");
    assert_eq!(
        WarningType::try_from_strings(&strings(&["txorigin", "txorigin"])),
        Ok(vec![WarningType::TxOrigin, WarningType::TxOrigin])
    );
    assert_eq!(
        WarningType::try_from_strings(&strings(&["txorigin", "a", "b"])),
        Err("invalid warning type: a".to_owned())
    );
    assert_eq!(WarningType::try_from_strings(&[]), Ok(vec![]));
}

#[test]
fn message_types_parsed() {
    assert_eq!(MessageType::from_str("txorigin"), Ok(MessageType::TxOrigin));
    assert_eq!(
        MessageType::from_str("TxOrigin"),
        Err("Invalid message type: TxOrigin".to_owned())
    );
    assert_eq!(
        MessageType::try_from_strings(&strings(&["x", "txorigin"])),
        Err("Invalid message type: x".to_owned())
    );
}

#[test]
fn standard_json_names() {
    assert_eq!(Language::Vyper.to_string(), "Vyper");
    assert_eq!(EVMVersion::default(), EVMVersion::Paris);
    assert_eq!(EVMVersion::Constantinople.to_string(), "constantinople");
    let error = Error { message: "boom".to_owned() };
    assert_eq!(error.to_string(), "boom");
}
