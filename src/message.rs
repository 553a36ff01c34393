use vstd::prelude::*;
use vstd::string::*;
use vstd::utf8::encode_utf8;

verus! {

/// Longest accepted `room`, in UTF-8 code units (bytes).
pub const MAX_ROOM_LEN: usize = 30;

/// Longest accepted `username`, in UTF-8 code units (bytes).
pub const MAX_USERNAME_LEN: usize = 20;

/// One chat message. Its value is never changed once published: each
/// subscriber receives its own copy.
#[derive(Debug)]
pub struct Message {
    pub room: String,
    pub username: String,
    pub message: String,
}

/// Why a message candidate was turned away at the boundary.
#[derive(Debug, Clone, Copy, PartialEq, Eq, Structural)]
pub enum ValidationError {
    RoomTooLong,
    UsernameTooLong,
}

/// Length of a text in UTF-8 code units.
pub open spec fn code_units(s: Seq<char>) -> nat {
    encode_utf8(s).len()
}

/// The field-length rules of a message.
pub open spec fn fields_valid(room: Seq<char>, username: Seq<char>) -> bool {
    code_units(room) <= MAX_ROOM_LEN && code_units(username) <= MAX_USERNAME_LEN
}

impl Message {
    /// A logical copy of this message, equal to it.
    pub fn duplicate(&self) -> (r: Message)
        ensures
            r == *self,
    {
        Message {
            room: self.room.clone(),
            username: self.username.clone(),
            message: self.message.clone(),
        }
    }

    /// Builds a message from its fields, applying the length rules: the room
    /// is checked first, then the username; the text itself is unbounded.
    pub fn validate(room: String, username: String, message: String) -> (r: Result<
        Message,
        ValidationError,
    >)
        ensures
            code_units(room@) > MAX_ROOM_LEN ==> r == Err::<Message, ValidationError>(
                ValidationError::RoomTooLong,
            ),
            code_units(room@) <= MAX_ROOM_LEN && code_units(username@) > MAX_USERNAME_LEN ==> r == Err::<
                Message,
                ValidationError,
            >(ValidationError::UsernameTooLong),
            fields_valid(room@, username@) ==> r == Ok::<Message, ValidationError>(
                (Message { room, username, message }),
            ),
    {
        if room.as_str().as_bytes().len() > MAX_ROOM_LEN {
            return Err(ValidationError::RoomTooLong);
        }
        if username.as_str().as_bytes().len() > MAX_USERNAME_LEN {
            return Err(ValidationError::UsernameTooLong);
        }
        Ok(Message { room, username, message })
    }
}

} // verus!
