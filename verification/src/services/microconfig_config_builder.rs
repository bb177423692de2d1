//! The builder that renders an environment's tree with the `microconfig` tool: the
//! arguments it runs the tool with, and what it makes of the tool's exit.

use crate::error::{prefixed, Error, ErrorView};
use crate::error_kind::{COMMAND_READ_FAILURE, CONFIG_BUILD_FAILURE, PATH_CONVERSION_ERROR};
use vstd::prelude::*;
use vstd::string::StringExecFns;
use vstd::utf8::{decode_utf8, valid_utf8};

verus! {

/// The program that the builder runs.
pub const MICROCONFIG: &'static str = "microconfig";

/// The failure of std's conversion from bytes to text. Trusted: only that the type
/// exists.
#[verifier::external_type_specification]
#[verifier::external_body]
pub struct ExFromUtf8Error(std::string::FromUtf8Error);

/// Specifies `String::from_utf8`. Trusted, as std documents it: the conversion
/// succeeds exactly on valid UTF-8, and the text is what the bytes encode.
pub assume_specification[ String::from_utf8 ](bytes: Vec<u8>) -> (text: Result<
    String,
    std::string::FromUtf8Error,
>)
    ensures
        text is Ok <==> valid_utf8(bytes@),
        text matches Ok(text) ==> text@ == decode_utf8(bytes@),
;

/// The arguments of a build of `environment` from `source` into `target`.
pub open spec fn build_arguments(
    environment: Seq<char>,
    source: Seq<char>,
    target: Seq<char>,
) -> Seq<Seq<char>> {
    seq!["-r"@, source, "-e"@, environment, "-d"@, target]
}

pub open spec fn unreadable_source_path() -> ErrorView {
    ErrorView {
        kind: PATH_CONVERSION_ERROR@,
        message: "failed to convert 'source_path' to a string."@,
    }
}

pub open spec fn unreadable_target_path() -> ErrorView {
    ErrorView {
        kind: PATH_CONVERSION_ERROR@,
        message: "failed to convert 'target_path' to a string."@,
    }
}

/// The failure of a build whose tool said why on its error stream.
pub open spec fn build_failed(reason: Seq<char>) -> ErrorView {
    ErrorView { kind: CONFIG_BUILD_FAILURE@, message: "failed to build configuration: "@ + reason }
}

/// The start of the message of a build whose tool's error stream is not text.
pub open spec fn unreadable_reason_lead() -> Seq<char> {
    "failed to read error message from output's stderr: "@
}

#[derive(Default)]
pub struct MicroconfigConfigBuilder {}

impl MicroconfigConfigBuilder {
    /// The arguments to run the tool with. A path that is not text, given as `None`,
    /// cannot be handed to the tool: the source is looked at first.
    pub fn command(
        &self,
        environment: &str,
        source_path: Option<&str>,
        target_path: Option<&str>,
    ) -> (arguments: Result<Vec<String>, Error>)
        ensures
            match (source_path, target_path) {
                (Some(source), Some(target)) => arguments is Ok && crate::text::texts(
                    arguments->Ok_0@,
                ) == build_arguments(environment@, source@, target@),
                (None, _) => arguments is Err && arguments->Err_0@ == unreadable_source_path(),
                (Some(_), None) => arguments is Err && arguments->Err_0@
                    == unreadable_target_path(),
            },
    {
        let source = match source_path {
            Some(source) => source,
            None => {
                return Err(
                    Error::new(
                        String::from_str(PATH_CONVERSION_ERROR),
                        String::from_str("failed to convert 'source_path' to a string."),
                    ),
                );
            },
        };
        let target = match target_path {
            Some(target) => target,
            None => {
                return Err(
                    Error::new(
                        String::from_str(PATH_CONVERSION_ERROR),
                        String::from_str("failed to convert 'target_path' to a string."),
                    ),
                );
            },
        };
        let mut arguments: Vec<String> = Vec::new();
        arguments.push(String::from_str("-r"));
        arguments.push(String::from_str(source));
        arguments.push(String::from_str("-e"));
        arguments.push(String::from_str(environment));
        arguments.push(String::from_str("-d"));
        arguments.push(String::from_str(target));
        Ok(arguments)
    }

    /// What a run of the tool comes to: a success if the tool said so, whatever it
    /// wrote; else a failure that quotes the tool's error stream, or says that the
    /// stream could not be read as text.
    pub fn outcome(&self, succeeded: bool, stderr: Vec<u8>) -> (built: Result<(), Error>)
        ensures
            succeeded <==> built is Ok,
            !succeeded && valid_utf8(stderr@) ==> built->Err_0@ == build_failed(
                decode_utf8(stderr@),
            ),
            !succeeded && !valid_utf8(stderr@) ==> {
                &&& built->Err_0@.kind == COMMAND_READ_FAILURE@
                &&& unreadable_reason_lead().is_prefix_of(built->Err_0@.message)
            },
    {
        if succeeded {
            return Ok(());
        }
        match String::from_utf8(stderr) {
            Ok(reason) => Err(
                Error::new(
                    String::from_str(CONFIG_BUILD_FAILURE),
                    prefixed("failed to build configuration: ", reason.as_str()),
                ),
            ),
            Err(error) => {
                let cause = error.to_string();
                Err(
                    Error::new(
                        String::from_str(COMMAND_READ_FAILURE),
                        prefixed(
                            "failed to read error message from output's stderr: ",
                            cause.as_str(),
                        ),
                    ),
                )
            },
        }
    }
}

} // verus!
