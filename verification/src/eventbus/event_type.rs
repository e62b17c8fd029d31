//! The names of the events the kernel publishes.

use vstd::prelude::*;

verus! {

/// A command started running.
pub const COMMAND_STARTED: &'static str = "command.started";

/// A command completed successfully.
pub const COMMAND_COMPLETED: &'static str = "command.completed";

/// A command failed.
pub const COMMAND_FAILED: &'static str = "command.failed";

/// A transaction was committed.
pub const TRANSACTION_COMMITTED: &'static str = "transaction.committed";

/// A transaction was rolled back.
pub const TRANSACTION_ROLLED_BACK: &'static str = "transaction.rolledback";

/// A capability provider was registered.
pub const CAPABILITY_REGISTERED: &'static str = "capability.registered";

/// A capability provider was unregistered.
pub const CAPABILITY_UNREGISTERED: &'static str = "capability.unregistered";

/// A session was created.
pub const SESSION_CREATED: &'static str = "session.created";

/// A session was closed.
pub const SESSION_CLOSED: &'static str = "session.closed";

/// An AI edit patch was proposed.
pub const AI_EDIT_PROPOSED: &'static str = "ai.edit.proposed";

/// A delta of an AI chat answer.
pub const AI_CHAT_DELTA: &'static str = "ai.chat.delta";

/// An AI inline suggestion.
pub const AI_INLINE_SUGGESTION: &'static str = "ai.inline.suggestion";

} // verus!
