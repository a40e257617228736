use vstd::prelude::*;

verus! {

/// The error that capnp's message reading and writing report.
#[verifier::external_type_specification]
#[verifier::external_body]
pub struct ExCapnpError(capnp::Error);

/// The error that std's byte streams report.
#[verifier::external_type_specification]
#[verifier::external_body]
pub struct ExIoError(std::io::Error);

/// Errors that end the processing of one compilation unit.
#[derive(Debug)]
pub enum PipelineError {
    /// A message could not be framed or read by capnp.
    Capnp(capnp::Error),
    /// The byte stream under a message failed.
    Io(std::io::Error),
    Parse { message: String },
    Type { message: String },
    Encoding { message: String },
    Evaluation { message: String },
}

} // verus!
