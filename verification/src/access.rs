//! The whitelist of users and the allowlist of peer vaults. The manager
//! edits both at once, without a timelock.

use vstd::prelude::*;
use crate::address::Address;
use crate::errors::STokenAllowlistMintError;
use crate::errors::STokenCoreError;
use crate::receipts::Authorization;
use crate::stoken::SToken;
use crate::stoken::VaultModel;

verus! {

impl VaultModel {
    /// Why `user` cannot be put on the whitelist, if they cannot: the
    /// whitelist is switched off, or they are on it.
    pub open spec fn add_user_to_whitelist_error(self, user: Address) -> Option<STokenCoreError> {
        if !self.state.config.whitelist_enabled {
            Some(STokenCoreError::WhitelistNotEnabled)
        } else if self.whitelist.contains(user) {
            Some(STokenCoreError::UserAlreadyWhitelisted)
        } else {
            None
        }
    }

    /// Why `user` cannot be taken off the whitelist, if they cannot: the
    /// whitelist is switched off, or they are not on it.
    pub open spec fn remove_user_from_whitelist_error(self, user: Address) -> Option<
        STokenCoreError,
    > {
        if !self.state.config.whitelist_enabled {
            Some(STokenCoreError::WhitelistNotEnabled)
        } else if !self.whitelist.contains(user) {
            Some(STokenCoreError::UserNotWhitelisted)
        } else {
            None
        }
    }
}

impl SToken {
    /// Puts `user_to_add` on the whitelist. On failure nothing changes.
    pub fn add_user_to_whitelist(&mut self, user_to_add: Address) -> (result: Result<
        Authorization,
        STokenCoreError,
    >)
        ensures
            match result {
                Ok(authorization) => {
                    &&& old(self)@.add_user_to_whitelist_error(user_to_add) is None
                    &&& authorization.authorizer == old(self).state.core.manager
                    &&& final(self)@ == (VaultModel {
                        whitelist: old(self)@.whitelist.insert(user_to_add),
                        ..old(self)@
                    })
                },
                Err(e) => {
                    &&& old(self)@.add_user_to_whitelist_error(user_to_add) == Some(e)
                    &&& final(self)@ == old(self)@
                },
            },
            old(self).wf() ==> final(self).wf(),
    {
        if !self.state.config.whitelist_enabled {
            return Err(STokenCoreError::WhitelistNotEnabled);
        }
        if self.whitelist.contains(user_to_add) {
            return Err(STokenCoreError::UserAlreadyWhitelisted);
        }
        self.whitelist.insert(user_to_add);
        Ok(Authorization { authorizer: self.state.core.manager })
    }

    /// Takes `user_to_remove` off the whitelist. On failure nothing
    /// changes.
    pub fn remove_user_from_whitelist(&mut self, user_to_remove: Address) -> (result: Result<
        Authorization,
        STokenCoreError,
    >)
        ensures
            match result {
                Ok(authorization) => {
                    &&& old(self)@.remove_user_from_whitelist_error(user_to_remove) is None
                    &&& authorization.authorizer == old(self).state.core.manager
                    &&& final(self)@ == (VaultModel {
                        whitelist: old(self)@.whitelist.remove(user_to_remove),
                        ..old(self)@
                    })
                },
                Err(e) => {
                    &&& old(self)@.remove_user_from_whitelist_error(user_to_remove) == Some(e)
                    &&& final(self)@ == old(self)@
                },
            },
            old(self).wf() ==> final(self).wf(),
    {
        if !self.state.config.whitelist_enabled {
            return Err(STokenCoreError::WhitelistNotEnabled);
        }
        if !self.whitelist.contains(user_to_remove) {
            return Err(STokenCoreError::UserNotWhitelisted);
        }
        self.whitelist.remove(user_to_remove);
        Ok(Authorization { authorizer: self.state.core.manager })
    }

    /// Puts the peer vault `mint` on the allowlist of vaults that may mint
    /// here in a swap. `peer_asset_manager` is the asset manager that the
    /// peer reports; it must be this vault's, else the failure is
    /// `AssetManagerMismatch` and nothing changes.
    pub fn accept_allowlist_mint(&mut self, mint: Address, peer_asset_manager: Address) -> (result:
        Result<Authorization, STokenAllowlistMintError>)
        ensures
            match result {
                Ok(authorization) => {
                    &&& peer_asset_manager == old(self).state.core.asset_manager
                    &&& authorization.authorizer == old(self).state.core.manager
                    &&& final(self)@ == (VaultModel {
                        allowlist_mint: old(self)@.allowlist_mint.insert(mint),
                        ..old(self)@
                    })
                },
                Err(e) => {
                    &&& peer_asset_manager != old(self).state.core.asset_manager
                    &&& e == STokenAllowlistMintError::AssetManagerMismatch
                    &&& final(self)@ == old(self)@
                },
            },
            old(self).wf() ==> final(self).wf(),
    {
        if peer_asset_manager != self.state.core.asset_manager {
            return Err(STokenAllowlistMintError::AssetManagerMismatch);
        }
        self.allowlist_mint.insert(mint);
        Ok(Authorization { authorizer: self.state.core.manager })
    }

    /// Takes the peer vault `mint` off the allowlist. Where it is not on
    /// it, the failure is `NotInAllowlist` and nothing changes.
    pub fn cancel_allowlist_mint(&mut self, mint: Address) -> (result: Result<
        Authorization,
        STokenAllowlistMintError,
    >)
        ensures
            match result {
                Ok(authorization) => {
                    &&& old(self)@.allowlist_mint.contains(mint)
                    &&& authorization.authorizer == old(self).state.core.manager
                    &&& final(self)@ == (VaultModel {
                        allowlist_mint: old(self)@.allowlist_mint.remove(mint),
                        ..old(self)@
                    })
                },
                Err(e) => {
                    &&& !old(self)@.allowlist_mint.contains(mint)
                    &&& e == STokenAllowlistMintError::NotInAllowlist
                    &&& final(self)@ == old(self)@
                },
            },
            old(self).wf() ==> final(self).wf(),
    {
        if !self.allowlist_mint.contains(mint) {
            return Err(STokenAllowlistMintError::NotInAllowlist);
        }
        self.allowlist_mint.remove(mint);
        Ok(Authorization { authorizer: self.state.core.manager })
    }

    /// Whether the peer vault `mint` is on the allowlist.
    pub fn is_allowlisted(&self, mint: Address) -> (allowed: bool)
        ensures
            allowed == self@.allowlist_mint.contains(mint),
    {
        self.allowlist_mint.contains(mint)
    }
}

} // verus!
