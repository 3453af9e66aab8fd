//! Failures of the Redis / database synchronisation and how they are answered.
use vstd::prelude::*;
use crate::status;

verus! {

/// A failed synchronisation step, with the message of the underlying error.
#[derive(Debug)]
pub enum SyncError {
    Redis(String),
    Postgres(String),
    Json(String),
    Other(String),
}

/// The status a failure is answered with: a malformed JSON document is the
/// client's fault, anything else the server's.
pub open spec fn sync_error_status(e: SyncError) -> u16 {
    match e {
        SyncError::Json(_) => status::BAD_REQUEST,
        _ => status::INTERNAL_SERVER_ERROR,
    }
}

/// The message of the underlying error.
pub open spec fn sync_error_message(e: SyncError) -> Seq<char> {
    match e {
        SyncError::Redis(m) => m@,
        SyncError::Postgres(m) => m@,
        SyncError::Json(m) => m@,
        SyncError::Other(m) => m@,
    }
}

/// The label put in front of the message in the error's description.
pub open spec fn sync_error_label(e: SyncError) -> Seq<char> {
    match e {
        SyncError::Redis(_) => seq![
            'R',
            'e',
            'd',
            'i',
            's',
            ' ',
            'f',
            'a',
            'i',
            'l',
            'u',
            'r',
            'e',
            ':',
            ' ',
        ],
        SyncError::Postgres(_) => seq![
            'D',
            'a',
            't',
            'a',
            'b',
            'a',
            's',
            'e',
            ' ',
            'f',
            'a',
            'i',
            'l',
            'u',
            'r',
            'e',
            ':',
            ' ',
        ],
        SyncError::Json(_) => seq!['J', 'S', 'O', 'N', ' ', 'f', 'a', 'i', 'l', 'u', 'r', 'e', ':', ' '],
        SyncError::Other(_) => Seq::empty(),
    }
}

impl SyncError {
    /// The HTTP status this failure is answered with.
    pub fn status_code(&self) -> (r: u16)
        ensures
            r == sync_error_status(*self),
    {
        match self {
            SyncError::Json(_) => status::BAD_REQUEST,
            _ => status::INTERNAL_SERVER_ERROR,
        }
    }

    /// The body of the answer: the message of the underlying error.
    pub fn message(&self) -> (r: String)
        ensures
            r@ == sync_error_message(*self),
    {
        match self {
            SyncError::Redis(m) => m.clone(),
            SyncError::Postgres(m) => m.clone(),
            SyncError::Json(m) => m.clone(),
            SyncError::Other(m) => m.clone(),
        }
    }

    /// The description logged for this failure, e.g. `Redis failure: {message}`.
    pub fn describe(&self) -> (r: String)
        ensures
            r@ == sync_error_label(*self) + sync_error_message(*self),
    {
        proof {
            reveal_strlit("Redis failure: ");
            reveal_strlit("Database failure: ");
            reveal_strlit("JSON failure: ");
        }
        let r = match self {
            SyncError::Redis(m) => String::from_str("Redis failure: ").concat(m.as_str()),
            SyncError::Postgres(m) => String::from_str("Database failure: ").concat(m.as_str()),
            SyncError::Json(m) => String::from_str("JSON failure: ").concat(m.as_str()),
            SyncError::Other(m) => m.clone(),
        };
        proof {
            assert(sync_error_label(*self) + sync_error_message(*self) =~= r@) by {
                match self {
                    SyncError::Redis(_) => {
                        assert("Redis failure: "@ =~= sync_error_label(*self));
                    },
                    SyncError::Postgres(_) => {
                        assert("Database failure: "@ =~= sync_error_label(*self));
                    },
                    SyncError::Json(_) => {
                        assert("JSON failure: "@ =~= sync_error_label(*self));
                    },
                    SyncError::Other(m) => {
                        assert(Seq::<char>::empty() + m@ =~= m@);
                    },
                }
            }
        }
        r
    }
}

} // verus!
