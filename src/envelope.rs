use vstd::prelude::*;

verus! {

/// The reply of every command: a status, `"ok"` or `"error"`, and the data.
pub struct Res<T> {
    pub status: String,
    pub data: T,
}

/// Why a command could not do what it was asked.
pub enum CommandError {
    /// No template is registered under the requested kind.
    UnknownKind,
    /// No live window has the given label.
    WindowNotFound,
    /// The counter has no key left to hand out.
    KeysExhausted,
    /// The host refused to create the window; its own description.
    CreationFailed(String),
}

impl CommandError {
    pub open spec fn message_spec(&self) -> Seq<char> {
        match self {
            CommandError::UnknownKind => "unknown window kind"@,
            CommandError::WindowNotFound => "window not found"@,
            CommandError::KeysExhausted => "unique keys exhausted"@,
            CommandError::CreationFailed(description) => description@,
        }
    }

    /// The text that an error reply carries as its data.
    pub fn message(&self) -> (r: String)
        ensures
            r@ == self.message_spec(),
    {
        match self {
            CommandError::UnknownKind => String::from_str("unknown window kind"),
            CommandError::WindowNotFound => String::from_str("window not found"),
            CommandError::KeysExhausted => String::from_str("unique keys exhausted"),
            CommandError::CreationFailed(description) => description.clone(),
        }
    }
}

/// A reply that carries `data` with status `"ok"`.
pub fn ok_response<T>(data: T) -> (r: Res<T>)
    ensures
        r.status@ == "ok"@,
        r.data == data,
{
    Res { status: String::from_str("ok"), data }
}

/// A reply with status `"error"` that carries the error's message.
pub fn error_response(error: &CommandError) -> (r: Res<String>)
    ensures
        r.status@ == "error"@,
        r.data@ == error.message_spec(),
{
    Res { status: String::from_str("error"), data: error.message() }
}

/// The reply to a command's result: `"ok"` with its value, or `"error"`
/// with the error's message.
pub fn respond<T>(result: Result<T, CommandError>) -> (r: Result<Res<T>, Res<String>>)
    ensures
        result matches Ok(v) ==> (r matches Ok(reply) && reply.status@ == "ok"@ && reply.data == v),
        result matches Err(e) ==> (r matches Err(reply) && reply.status@ == "error"@ && reply.data@
            == e.message_spec()),
{
    match result {
        Ok(v) => Ok(ok_response(v)),
        Err(e) => Err(error_response(&e)),
    }
}

} // verus!
