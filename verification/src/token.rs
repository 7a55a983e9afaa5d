//! Single-use tokens that account for pending pushes on the native style
//! stacks.
//!
//! Pushing a style property returns a single-use token; releasing the token
//! undoes the corresponding native push. Releasing a token twice is a usage
//! error that is surfaced immediately rather than silently ignored. Every
//! pushed token must be released before the enclosing frame ends, in reverse
//! order of pushing; that part of the discipline remains a documented usage
//! contract of the native stacks, which know nothing of these tokens.

use vstd::prelude::*;

verus! {

/// Error raised when a style-stack token is misused.
#[derive(Clone, Copy, Debug, PartialEq, Eq, Structural)]
pub enum TokenError {
    /// The token had already been popped once before.
    AlreadyPopped,
}

/// Tracks a change pushed to the style color stack.
pub struct StyleColorToken {
    /// Whether this token has been popped or not.
    was_popped: bool,
}

impl StyleColorToken {
    /// True once the pending push this token stands for has been popped.
    pub closed spec fn popped(self) -> bool {
        self.was_popped
    }

    /// Records one entry freshly pushed onto the style color stack; the
    /// returned token must be popped exactly once.
    pub fn new() -> (t: StyleColorToken)
        ensures
            !t.popped(),
    {
        StyleColorToken { was_popped: false }
    }

    /// Releases the token. The first release returns `Ok`, meaning the one
    /// native style color entry this token stands for must now be popped;
    /// every later release returns `Err`, and no further native pop is owed.
    pub fn pop(&mut self) -> (r: Result<(), TokenError>)
        ensures
            final(self).popped(),
            r is Ok <==> !old(self).popped(),
    {
        if self.was_popped {
            Err(TokenError::AlreadyPopped)
        } else {
            self.was_popped = true;
            Ok(())
        }
    }

    /// Whether this token has been popped already.
    pub fn was_popped(&self) -> (r: bool)
        ensures
            r == self.popped(),
    {
        self.was_popped
    }
}

/// Tracks a change pushed to the style variable stack.
pub struct StyleVarToken {
    /// Whether this token has been popped or not.
    was_popped: bool,
}

impl StyleVarToken {
    /// True once the pending push this token stands for has been popped.
    pub closed spec fn popped(self) -> bool {
        self.was_popped
    }

    /// Records one entry freshly pushed onto the style variable stack; the
    /// returned token must be popped exactly once.
    pub fn new() -> (t: StyleVarToken)
        ensures
            !t.popped(),
    {
        StyleVarToken { was_popped: false }
    }

    /// Releases the token. The first release returns `Ok`, meaning the one
    /// native style variable entry this token stands for must now be popped;
    /// every later release returns `Err`, and no further native pop is owed.
    pub fn pop(&mut self) -> (r: Result<(), TokenError>)
        ensures
            final(self).popped(),
            r is Ok <==> !old(self).popped(),
    {
        if self.was_popped {
            Err(TokenError::AlreadyPopped)
        } else {
            self.was_popped = true;
            Ok(())
        }
    }

    /// Whether this token has been popped already.
    pub fn was_popped(&self) -> (r: bool)
        ensures
            r == self.popped(),
    {
        self.was_popped
    }
}

} // verus!
