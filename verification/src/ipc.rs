//! Lazy connection to the simulator's services.
//!
//! A panel connects the first time it is shown. The attempt is made at most
//! once: after a success the connection is kept, and after a failure the
//! error is kept and shown instead of retrying every frame.

use vstd::prelude::*;

verus! {

/// A connection of type `T` that is made on first use, or the error that
/// the attempt gave.
pub struct Connection<T> {
    conn: Option<T>,
    init_error: Option<String>,
}

impl<T> Connection<T> {
    /// The connection, once made.
    pub closed spec fn connection(self) -> Option<T> {
        self.conn
    }

    /// The error of the failed attempt, if one failed.
    pub closed spec fn error(self) -> Option<Seq<char>> {
        match self.init_error {
            Some(e) => Some(e@),
            None => None,
        }
    }

    /// Whether a connection attempt is still due: nothing is connected and
    /// no attempt has failed.
    pub open spec fn attempt_due(self) -> bool {
        self.connection() is None && self.error() is None
    }

    /// The state after an attempt with the given outcome: a connection is
    /// kept, an error is kept; the other part stays as it was.
    pub closed spec fn after_attempt(self, outcome: Result<T, String>) -> Connection<T> {
        match outcome {
            Ok(c) => Connection { conn: Some(c), ..self },
            Err(e) => Connection { init_error: Some(e), ..self },
        }
    }

    pub proof fn lemma_after_attempt(self, outcome: Result<T, String>)
        ensures
            match outcome {
                Ok(c) => self.after_attempt(outcome).connection() == Some(c)
                    && self.after_attempt(outcome).error() == self.error(),
                Err(e) => self.after_attempt(outcome).error() == Some(e@)
                    && self.after_attempt(outcome).connection() == self.connection(),
            },
    {
    }

    /// Not connected, and no attempt made.
    pub fn new() -> (c: Connection<T>)
        ensures
            c.connection() is None,
            c.error() is None,
    {
        Connection { conn: None, init_error: None }
    }

    /// Whether the connection still has to be attempted.
    pub fn needs_init(&self) -> (due: bool)
        ensures
            due == self.attempt_due(),
            due == (self.connection() is None && self.error() is None),
    {
        self.conn.is_none() && self.init_error.is_none()
    }

    /// Records the outcome of a connection attempt: a connection is kept,
    /// an error is kept for display; the other part is left as it was.
    pub fn record_init(&mut self, outcome: Result<T, String>)
        ensures
            *final(self) == old(self).after_attempt(outcome),
            match outcome {
                Ok(c) => final(self).connection() == Some(c) && final(self).error() == old(self).error(),
                Err(e) => final(self).error() == Some(e@) && final(self).connection() == old(self).connection(),
            },
    {
        match outcome {
            Ok(c) => {
                self.conn = Some(c);
            },
            Err(e) => {
                self.init_error = Some(e);
            },
        }
    }

    /// The error of the failed attempt, if one failed.
    pub fn init_error(&self) -> (e: Option<&str>)
        ensures
            match e {
                Some(s) => self.error() == Some(s@),
                None => self.error() is None,
            },
    {
        match &self.init_error {
            Some(s) => Some(s.as_str()),
            None => None,
        }
    }

    /// The connection, once made.
    pub fn ipc(&self) -> (c: Option<&T>)
        ensures
            match c {
                Some(x) => self.connection() == Some(*x),
                None => self.connection() is None,
            },
    {
        match &self.conn {
            Some(x) => Some(x),
            None => None,
        }
    }
}

/// Once an attempt has been recorded, whatever its outcome, no further
/// attempt is due: a connection is tried at most once.
pub proof fn lemma_no_retry<T>(c: Connection<T>, outcome: Result<T, String>)
    ensures
        !c.after_attempt(outcome).attempt_due(),
{
    c.lemma_after_attempt(outcome);
}

} // verus!
