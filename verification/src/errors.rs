//! Errors of the chat connection.

use vstd::prelude::*;

use crate::text::{concat2, concat3};

verus! {

/// What went wrong with a chat connection.
#[derive(Clone, Debug)]
pub enum ChatError {
    /// a network failure, with the system's description
    NetworkError(String),
    UsernameTaken(String),
    InvalidMessage,
    Disconnected,
}

/// The text of a chat error.
pub open spec fn chat_error_text(e: ChatError) -> Seq<char> {
    match e {
        ChatError::NetworkError(m) => "Falha na rede: "@ + m@,
        ChatError::UsernameTaken(u) => "Usuário '"@ + u@ + "' já está em uso"@,
        ChatError::InvalidMessage => "Mensagem inválida ou corrompida"@,
        ChatError::Disconnected => "Desconectado do servidor"@,
    }
}

impl ChatError {
    /// The text of the error.
    pub fn message(&self) -> (s: String)
        ensures
            s@ == chat_error_text(*self),
    {
        match self {
            ChatError::NetworkError(m) => concat2("Falha na rede: ", m.as_str()),
            ChatError::UsernameTaken(u) => concat3("Usuário '", u.as_str(), "' já está em uso"),
            ChatError::InvalidMessage => "Mensagem inválida ou corrompida".to_owned(),
            ChatError::Disconnected => "Desconectado do servidor".to_owned(),
        }
    }
}

} // verus!
