use super::state::UserAccount;
use super::ErrorCode;
use vstd::prelude::*;

verus! {

/// The bump seed found for a user account's address.
#[derive(Clone, Copy, Debug, PartialEq, Eq, Structural)]
pub struct InitUserAccountBumps {
    pub user_account: u8,
}

/// The accounts with which a user opens a user account.
#[derive(Clone, Copy, Debug, PartialEq, Eq, Structural)]
pub struct InitUserAccount {
    pub user_account: UserAccount,
}

impl InitUserAccount {
    /// Opens the user account with no points and nothing staked.
    pub fn init_user_account(&mut self, bumps: &InitUserAccountBumps) -> (r: Result<(), ErrorCode>)
        ensures
            r is Ok,
            final(self).user_account == (UserAccount {
                points: 0,
                amount_staked: 0,
                bump: bumps.user_account,
            }),
    {
        self.user_account = UserAccount { bump: bumps.user_account, amount_staked: 0, points: 0 };
        Ok(())
    }
}

} // verus!
