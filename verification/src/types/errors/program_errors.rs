use vstd::prelude::*;

use crate::utils::{decimal, push_decimal, PRIME_STR};

verus! {

#[verifier::external_type_specification]
#[verifier::external_body]
pub struct ExIoError(std::io::Error);

#[verifier::external_type_specification]
#[verifier::external_body]
pub struct ExJsonError(serde_json::Error);

/// Errors in loading or reading a program.
#[derive(Debug)]
pub enum ProgramError {
    IO(std::io::Error),
    Parse(serde_json::Error),
    OperationNotSupported(String),
    EntrypointNotFound(String),
    ConstWithoutValue(String),
    PrimeDiffers(String),
    StrippedProgramNoMain,
    InvalidHintPc(usize, usize),
    AliasMissingDestination(String),
    InvalidIdentifierTypeForPc(String, String),
}

impl ProgramError {
    /// The message of an error, where it is the library's own text; the I/O
    /// and parse errors show the message of the error they carry.
    pub open spec fn spec_message(&self) -> Option<Seq<char>> {
        match self {
            ProgramError::IO(_) => None,
            ProgramError::Parse(_) => None,
            ProgramError::OperationNotSupported(s) => Some(
                "The \""@ + s@ + "\" operation is not supported"@,
            ),
            ProgramError::EntrypointNotFound(s) => Some("Entrypoint "@ + s@ + " not found"@),
            ProgramError::ConstWithoutValue(s) => Some("Constant "@ + s@ + " has no value"@),
            ProgramError::PrimeDiffers(s) => Some("Expected prime "@ + PRIME_STR@ + ", got "@ + s@),
            ProgramError::StrippedProgramNoMain => Some(
                "Can't build a StrippedProgram from a Program without main"@,
            ),
            ProgramError::InvalidHintPc(pc, len) => Some(
                "Hint PC ("@ + decimal(*pc as nat) + ") is greater or equal to program length ("@
                    + decimal(*len as nat) + ")"@,
            ),
            ProgramError::AliasMissingDestination(s) => Some(
                "Identifier \""@ + s@ + "\" is type alias but has no destination"@,
            ),
            ProgramError::InvalidIdentifierTypeForPc(name, ty) => Some(
                "invalid identifier type \""@ + ty@ + "\" for \""@ + name@
                    + "\": expected \"alias\" or \"function\""@,
            ),
        }
    }

    /// The error's message, as its `Display` writes it.
    pub fn message(&self) -> (m: String)
        ensures
            self.spec_message() matches Some(text) ==> m@ == text,
            self matches ProgramError::IO(e) ==> vstd::string::to_string_from_display_ensures::<
                std::io::Error,
            >(&e, m),
            self matches ProgramError::Parse(e) ==> vstd::string::to_string_from_display_ensures::<
                serde_json::Error,
            >(&e, m),
    {
        match self {
            ProgramError::IO(e) => e.to_string(),
            ProgramError::Parse(e) => e.to_string(),
            ProgramError::OperationNotSupported(s) => {
                let mut m = String::from_str("The \"");
                m.append(s.as_str());
                m.append("\" operation is not supported");
                m
            },
            ProgramError::EntrypointNotFound(s) => {
                let mut m = String::from_str("Entrypoint ");
                m.append(s.as_str());
                m.append(" not found");
                m
            },
            ProgramError::ConstWithoutValue(s) => {
                let mut m = String::from_str("Constant ");
                m.append(s.as_str());
                m.append(" has no value");
                m
            },
            ProgramError::PrimeDiffers(s) => {
                let mut m = String::from_str("Expected prime ");
                m.append(PRIME_STR);
                m.append(", got ");
                m.append(s.as_str());
                m
            },
            ProgramError::StrippedProgramNoMain => {
                String::from_str("Can't build a StrippedProgram from a Program without main")
            },
            ProgramError::InvalidHintPc(pc, len) => {
                let mut m = String::from_str("Hint PC (");
                push_decimal(&mut m, *pc);
                m.append(") is greater or equal to program length (");
                push_decimal(&mut m, *len);
                m.append(")");
                m
            },
            ProgramError::AliasMissingDestination(s) => {
                let mut m = String::from_str("Identifier \"");
                m.append(s.as_str());
                m.append("\" is type alias but has no destination");
                m
            },
            ProgramError::InvalidIdentifierTypeForPc(name, ty) => {
                let mut m = String::from_str("invalid identifier type \"");
                m.append(ty.as_str());
                m.append("\" for \"");
                m.append(name.as_str());
                m.append("\": expected \"alias\" or \"function\"");
                m
            },
        }
    }
}

} // verus!
