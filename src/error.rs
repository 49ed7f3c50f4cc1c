use vstd::prelude::*;

verus! {

#[verifier::external_type_specification]
#[verifier::external_body]
pub struct ExIoError(std::io::Error);

/// Why a log operation failed.
#[derive(Debug)]
pub enum BlackBoxError {
    /// Opening the file or writing a record failed; carries the cause.
    Io(std::io::Error),
    /// A previous holder panicked while it held the serialization lock.
    Lock,
}

} // verus!
