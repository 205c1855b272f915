use cairo_vm::types::errors::program_errors::ProgramError;
use cairo_vm::utils::PRIME_STR;

#[test]
fn format_entrypoint_not_found_error() {
    let error = ProgramError::EntrypointNotFound(String::from("my_function"));
    let formatted_error = error.message();
    assert_eq!(formatted_error, "Entrypoint my_function not found");
}

#[test]
fn format_alias_missing_destination_error() {
    let error = ProgramError::AliasMissingDestination(String::from("__main__.assert_nn"));
    let formatted_error = error.message();
    assert_eq!(
        formatted_error,
        "Identifier \"__main__.assert_nn\" is type alias but has no destination"
    );
}

#[test]
fn format_invalid_identifier_type_for_pc_error() {
    let error = ProgramError::InvalidIdentifierTypeForPc(
        String::from("__main__.my_struct"),
        String::from("struct"),
    );
    let formatted_error = error.message();
    assert_eq!(
        formatted_error,
        "invalid identifier type \"struct\" for \"__main__.my_struct\": expected \"alias\" or \"function\""
    );
}

#[test]
fn format_invalid_hint_pc_error() {
    let error = ProgramError::InvalidHintPc(10, 7);
    assert_eq!(
        error.message(),
        "Hint PC (10) is greater or equal to program length (7)"
    );
    let error = ProgramError::InvalidHintPc(0, 18446744073709551615);
    assert_eq!(
        error.message(),
        "Hint PC (0) is greater or equal to program length (18446744073709551615)"
    );
}

#[test]
fn format_other_program_errors() {
    assert_eq!(
        ProgramError::OperationNotSupported(String::from("mul")).message(),
        "The \"mul\" operation is not supported"
    );
    assert_eq!(
        ProgramError::ConstWithoutValue(String::from("X")).message(),
        "Constant X has no value"
    );
    assert_eq!(
        ProgramError::PrimeDiffers(String::from("0x11")).message(),
        format!("Expected prime {PRIME_STR}, got 0x11")
    );
    assert_eq!(
        ProgramError::StrippedProgramNoMain.message(),
        "Can't build a StrippedProgram from a Program without main"
    );
}

#[test]
fn format_wrapped_errors_show_their_message() {
    let io = std::io::Error::new(std::io::ErrorKind::Other, "disk on fire");
    assert_eq!(ProgramError::IO(io).message(), "disk on fire");
    let parse = serde_json::from_str::<u32>("[").unwrap_err();
    let text = parse.to_string();
    assert_eq!(ProgramError::Parse(parse).message(), text);
}
