//! The slash commands: permission checks and the replies they build.

pub mod configure;
pub mod info;
pub mod publication;
pub mod watcher;

use vstd::prelude::*;

verus! {

/// The `ADMINISTRATOR` permission bit.
pub const ADMINISTRATOR: u64 = 8;

/// The `MANAGE_MESSAGES` permission bit.
pub const MANAGE_MESSAGES: u64 = 8192;

/// Whether the permission bits `permissions` hold every bit of `required`.
pub open spec fn holds_all(permissions: u64, required: u64) -> bool {
    permissions & required == required
}

/// A member is refused when their permission bits lack one of the required bits,
/// unless they own the bot.
pub open spec fn refused(permissions: u64, required: u64, owners: Seq<u64>, user: u64) -> bool {
    !holds_all(permissions, required) && !owners.contains(user)
}

/// Checks the permissions of `user`, whose permission bits are `permissions`, against
/// `required`; `owners` are the owners of the bot.
pub fn check_permissions(permissions: u64, required: u64, owners: &Vec<u64>, user: u64) -> (r: Result<(), String>)
    ensures
        r is Err <==> refused(permissions, required, owners@, user),
        r matches Err(e) ==> e@ == "insufficient permissions!"@,
{
    let mut is_owner = false;
    let mut i: usize = 0;
    while i < owners.len()
        invariant
            i <= owners.len(),
            is_owner <==> exists|j: int| 0 <= j < i && owners@[j] == user,
        decreases owners.len() - i,
    {
        if owners[i] == user {
            is_owner = true;
        }
        i = i + 1;
    }
    assert(is_owner <==> owners@.contains(user));
    if permissions & required != required && !is_owner {
        Err(String::from_str("insufficient permissions!"))
    } else {
        Ok(())
    }
}

/// The check of the commands for administrators.
pub fn require_admin(permissions: u64, owners: &Vec<u64>, user: u64) -> (r: Result<(), String>)
    ensures
        r is Err <==> refused(permissions, ADMINISTRATOR, owners@, user),
        r matches Err(e) ==> e@ == "insufficient permissions!"@,
{
    check_permissions(permissions, ADMINISTRATOR, owners, user)
}

/// The check of the commands for moderators.
pub fn require_mod(permissions: u64, owners: &Vec<u64>, user: u64) -> (r: Result<(), String>)
    ensures
        r is Err <==> refused(permissions, MANAGE_MESSAGES, owners@, user),
        r matches Err(e) ==> e@ == "insufficient permissions!"@,
{
    check_permissions(permissions, MANAGE_MESSAGES, owners, user)
}

/// The owners of the bot pass every permission check.
pub proof fn lemma_owner_never_refused(permissions: u64, required: u64, owners: Seq<u64>, user: u64)
    requires
        owners.contains(user),
    ensures
        !refused(permissions, required, owners, user),
{
}

/// A member whose permission bits hold every required bit passes, whatever other bits
/// they hold.
pub proof fn lemma_holding_required_admitted(permissions: u64, required: u64, owners: Seq<u64>, user: u64)
    requires
        holds_all(permissions, required),
    ensures
        !refused(permissions, required, owners, user),
{
}

/// Granting a member more permission bits never turns an admitted member into a
/// refused one.
pub proof fn lemma_more_bits_stay_admitted(permissions: u64, extra: u64, required: u64, owners: Seq<u64>, user: u64)
    requires
        !refused(permissions, required, owners, user),
    ensures
        !refused(permissions | extra, required, owners, user),
{
    if holds_all(permissions, required) {
        assert((permissions | extra) & required == required) by (bit_vector)
            requires
                permissions & required == required,
        ;
    }
}

/// A member with no permission bits at all is refused any non-empty requirement unless
/// they own the bot.
pub proof fn lemma_no_bits_refused(required: u64, owners: Seq<u64>, user: u64)
    requires
        required != 0,
        !owners.contains(user),
    ensures
        refused(0, required, owners, user),
{
    assert(0u64 & required == 0) by (bit_vector);
}

} // verus!
