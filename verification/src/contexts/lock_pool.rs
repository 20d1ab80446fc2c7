use vstd::prelude::*;

use crate::address::{Address, same_address};
use crate::error::AmmError;
use crate::state::Config;

verus! {

/// The accounts of a lock or an unlock: the signer and the pool's configuration.
#[derive(Debug, Clone, Copy, PartialEq, Eq)]
pub struct LockPool {
    pub authority: Address,
    pub config: Config,
}

impl LockPool {
    /// The signer is the authority that the configuration records.
    pub open spec fn authorized(self) -> bool {
        self.config.authority == Some(self.authority)
    }

    /// Refuses a signer that is not the pool's authority.
    pub fn authorize(&self) -> (r: Result<(), AmmError>)
        ensures
            self.authorized() ==> r is Ok,
            !self.authorized() ==> r == Err::<(), AmmError>(AmmError::InvalidConfig),
            r is Ok <==> self.config.authority == Some(self.authority),
    {
        match &self.config.authority {
            Some(a) => {
                if same_address(a, &self.authority) {
                    Ok(())
                } else {
                    Err(AmmError::InvalidConfig)
                }
            },
            None => Err(AmmError::InvalidConfig),
        }
    }

    /// Locks the pool, so that it refuses swaps and withdrawals; only its authority may.
    pub fn lock(&mut self) -> (r: Result<(), AmmError>)
        ensures
            old(self).authorized() ==> r is Ok && final(self).config == old(self).config.with_locked(true)
                && final(self).authority == old(self).authority,
            r is Ok <==> old(self).config.authority == Some(old(self).authority),
            r is Ok ==> final(self).config.locked && final(self).config == (Config {
                locked: true,
                ..old(self).config
            }),
            !old(self).authorized() ==> r == Err::<(), AmmError>(AmmError::InvalidConfig)
                && *final(self) == *old(self),
    {
        self.authorize()?;
        self.config.locked = true;
        Ok(())
    }

    /// Unlocks the pool; only its authority may.
    pub fn unlock(&mut self) -> (r: Result<(), AmmError>)
        ensures
            old(self).authorized() ==> r is Ok && final(self).config == old(self).config.with_locked(false)
                && final(self).authority == old(self).authority,
            r is Ok <==> old(self).config.authority == Some(old(self).authority),
            r is Ok ==> !final(self).config.locked && final(self).config == (Config {
                locked: false,
                ..old(self).config
            }),
            !old(self).authorized() ==> r == Err::<(), AmmError>(AmmError::InvalidConfig)
                && *final(self) == *old(self),
    {
        self.authorize()?;
        self.config.locked = false;
        Ok(())
    }
}

/// Unlocking undoes locking: a pool that was unlocked, locked and then unlocked
/// again has the configuration it had at first.
pub proof fn lemma_unlock_undoes_lock(c: Config)
    requires
        !c.locked,
    ensures
        c.with_locked(true).with_locked(false) == c,
{
}

/// Locking undoes unlocking: a locked pool, unlocked and locked again, is as it was.
pub proof fn lemma_lock_undoes_unlock(c: Config)
    requires
        c.locked,
    ensures
        c.with_locked(false).with_locked(true) == c,
{
}

/// Locking twice is locking once, and so for unlocking.
pub proof fn lemma_lock_is_idempotent(c: Config)
    ensures
        c.with_locked(true).with_locked(true) == c.with_locked(true),
        c.with_locked(false).with_locked(false) == c.with_locked(false),
{
}

/// Neither lock nor unlock changes who may lock the pool, so an authority that
/// locked a pool can always unlock it.
pub proof fn lemma_authority_survives_lock(p: LockPool, locked: bool)
    requires
        p.authorized(),
    ensures
        (LockPool { authority: p.authority, config: p.config.with_locked(locked) }).authorized(),
{
}

} // verus!
