//! The authorization check: a pure membership test over the caller's
//! role set and the configured moderator role, and the guard that turns
//! a failed check into exactly one ephemeral denial reply. A caller
//! without guild context is never authorized — authorization fails closed.

use vstd::prelude::*;
use vstd::string::StringExecFns;

verus! {

/// Who invoked a command, as far as authorization cares: the role ids
/// the caller holds in the guild the invocation came from, or the
/// explicit absence of any guild context.
pub enum Caller {
    Guild { roles: Vec<u64> },
    NoGuildContext,
}

/// The authorization predicate: the configured moderator role is among the
/// caller's roles. Without guild context there is no role set to
/// consult, and the answer is no.
pub open spec fn spec_is_moderator(caller: Caller, mod_role: u64) -> bool {
    match caller {
        Caller::Guild { roles } => roles@.contains(mod_role),
        Caller::NoGuildContext => false,
    }
}

/// Whether the caller holds the configured moderator role.
pub fn is_moderator(caller: &Caller, mod_role: u64) -> (r: bool)
    ensures
        r == spec_is_moderator(*caller, mod_role),
{
    match caller {
        Caller::Guild { roles } => {
            let n = roles.len();
            let mut i: usize = 0;
            while i < n
                invariant
                    0 <= i <= n,
                    n == roles@.len(),
                    *caller matches Caller::Guild { roles: r } && r@ == roles@,
                    forall|j: int| 0 <= j < i ==> roles@[j] != mod_role,
                decreases n - i,
            {
                if roles[i] == mod_role {
                    proof {
                        assert(roles@.contains(mod_role)) by {
                            assert(roles@[i as int] == mod_role);
                        }
                    }
                    return true;
                }
                i += 1;
            }
            false
        },
        Caller::NoGuildContext => false,
    }
}

/// The single caller-only reply the guard sends in place of running a
/// protected operation.
pub struct DenialReply {
    pub content: String,
    pub ephemeral: bool,
}

/// The guard's fixed denial text.
pub open spec fn denial_text() -> Seq<char> {
    "This command is only available to moderators."@
}

/// What the guard decided: let the protected operation run, or skip it
/// entirely and send the one denial reply.
pub enum GuardVerdict {
    Allow,
    Deny(DenialReply),
}

/// A denial is correct when the caller really lacks the moderator role
/// and the reply is the fixed text, visible to the caller alone.
pub open spec fn denied_ok(caller: Caller, mod_role: u64, d: DenialReply) -> bool {
    &&& !spec_is_moderator(caller, mod_role)
    &&& d.content@ == denial_text()
    &&& d.ephemeral
}

/// Contract of the guard: it allows exactly the callers the
/// authorization predicate admits, and a denial carries the fixed text, visible to the
/// caller alone.
pub open spec fn verdict_ok(caller: Caller, mod_role: u64, r: GuardVerdict) -> bool {
    match r {
        GuardVerdict::Allow => spec_is_moderator(caller, mod_role),
        GuardVerdict::Deny(d) => denied_ok(caller, mod_role, d),
    }
}

/// The guard wrapped around every moderated operation: runs the authorization
/// check and, on failure, yields the one ephemeral reply that goes out while
/// the protected operation is skipped.
pub fn check_is_moderator(caller: &Caller, mod_role: u64) -> (r: GuardVerdict)
    ensures
        verdict_ok(*caller, mod_role, r),
{
    if is_moderator(caller, mod_role) {
        GuardVerdict::Allow
    } else {
        let content = String::from_str("This command is only available to moderators.");
        GuardVerdict::Deny(DenialReply { content, ephemeral: true })
    }
}

/// Law: authorization fails closed — an invocation that carries no guild
/// context is denied whatever moderator role is configured.
pub proof fn lemma_authorization_fails_closed(mod_role: u64)
    ensures
        !spec_is_moderator(Caller::NoGuildContext, mod_role),
{
}

} // verus!
