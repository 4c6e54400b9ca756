use vstd::prelude::*;

verus! {

/// Everything that can go wrong in the program. Each variant carries the
/// message that is shown to the user.
#[derive(Debug)]
pub enum DragonDisplayError {
    ConnectionRefused { msg: String },
    SendMessageError,
    SendBackendError,
    ClientSecretError,
    IOError { msg: String },
    RecvError { msg: String },
    SerializeError { msg: String },
    ClientError { msg: String },
    InvalidName { msg: String },
    InvalidPath { msg: String },
    AddressInUse,
    InvalidData { msg: String },
    GlibError { msg: String },
    DecodeError { msg: String },
    Other { msg: String },
}

} // verus!

verus! {

/// The message about a problem with the Google client secret.
pub open spec fn client_secret_message() -> Seq<char> {
    "There was a problem with the client secret. Follow this <a href=\"https://github.com/SangzorDeGeit/Dragon-Display/blob/main/README.md#using-google-drive\">link</a> for more info, or read the instructions on the readme for 'Using Google Drive'"@
}

/// The text that an error is shown with.
pub open spec fn spec_message(err: DragonDisplayError) -> Seq<char> {
    match err {
        DragonDisplayError::ConnectionRefused { msg } => msg@,
        DragonDisplayError::SendMessageError => "Failed to send message to server"@,
        DragonDisplayError::SendBackendError => "Failed to send message from backend to manager"@,
        DragonDisplayError::ClientSecretError => client_secret_message(),
        DragonDisplayError::IOError { msg } => msg@,
        DragonDisplayError::RecvError { msg } => msg@,
        DragonDisplayError::SerializeError { msg } => msg@,
        DragonDisplayError::ClientError { msg } => msg@,
        DragonDisplayError::InvalidName { msg } => "The inputted name is invalid: "@ + msg@,
        DragonDisplayError::InvalidPath { msg } => "Cannot use path: "@ + msg@,
        DragonDisplayError::AddressInUse => "Address in use"@,
        DragonDisplayError::InvalidData { msg } => msg@,
        DragonDisplayError::GlibError { msg } => msg@,
        DragonDisplayError::DecodeError { msg } => msg@,
        DragonDisplayError::Other { msg } => msg@,
    }
}

impl DragonDisplayError {
    /// The text the error is shown with.
    pub fn message(&self) -> (res: String)
        ensures
            res@ == spec_message(*self),
    {
        match self {
            DragonDisplayError::ConnectionRefused { msg } => msg.clone(),
            DragonDisplayError::SendMessageError => String::from_str("Failed to send message to server"),
            DragonDisplayError::SendBackendError => String::from_str("Failed to send message from backend to manager"),
            DragonDisplayError::ClientSecretError => String::from_str("There was a problem with the client secret. Follow this <a href=\"https://github.com/SangzorDeGeit/Dragon-Display/blob/main/README.md#using-google-drive\">link</a> for more info, or read the instructions on the readme for 'Using Google Drive'"),
            DragonDisplayError::IOError { msg } => msg.clone(),
            DragonDisplayError::RecvError { msg } => msg.clone(),
            DragonDisplayError::SerializeError { msg } => msg.clone(),
            DragonDisplayError::ClientError { msg } => msg.clone(),
            DragonDisplayError::InvalidName { msg } => String::from_str("The inputted name is invalid: ").concat(msg.as_str()),
            DragonDisplayError::InvalidPath { msg } => String::from_str("Cannot use path: ").concat(msg.as_str()),
            DragonDisplayError::AddressInUse => String::from_str("Address in use"),
            DragonDisplayError::InvalidData { msg } => msg.clone(),
            DragonDisplayError::GlibError { msg } => msg.clone(),
            DragonDisplayError::DecodeError { msg } => msg.clone(),
            DragonDisplayError::Other { msg } => msg.clone(),
        }
    }
}

} // verus!
