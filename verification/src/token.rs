//! Tokens issued for wills: a small registry of who owns which token.

use vstd::prelude::*;
use crate::digest::{derive_token_id, token_id_digest};
use crate::error::WillError;
use crate::principal::Principal;
use crate::store::{records_after, reports, Store};

verus! {

/// A token: the will it was issued for, who owns it, and when it was issued.
#[derive(Clone, Copy, Debug)]
pub struct TokenData {
    pub will_id: [u8; 32],
    pub owner: Principal,
    pub metadata: [u8; 32],
    pub issued_at: u64,
}

/// What minting gives: the token to store, or the reason why none is stored.
/// Only the administrator mints.
pub open spec fn mint_outcome(
    admin: Principal,
    caller: Principal,
    to: Principal,
    will_id: [u8; 32],
    metadata: [u8; 32],
    now: u64,
) -> Result<TokenData, WillError> {
    if caller != admin {
        Err(WillError::Unauthorized)
    } else {
        Ok(TokenData { will_id, owner: to, metadata, issued_at: now })
    }
}

/// What transferring the token under `token_id` gives: the token with its
/// new owner, or the reason why it stays where it is. Only the current owner
/// hands a token on.
pub open spec fn transfer_outcome(
    tokens: Map<Seq<u8>, TokenData>,
    token_id: Seq<u8>,
    caller: Principal,
    from: Principal,
    to: Principal,
) -> Result<TokenData, WillError> {
    if !tokens.contains_key(token_id) {
        Err(WillError::NotFound)
    } else if caller != from || tokens[token_id].owner != from {
        Err(WillError::Unauthorized)
    } else {
        Ok(TokenData { owner: to, ..tokens[token_id] })
    }
}

/// The registry of tokens.
pub struct TokenManager {
    admin: Principal,
    tokens: Store<TokenData>,
}

impl View for TokenManager {
    type V = Map<Seq<u8>, TokenData>;

    /// The token stored under each token id.
    closed spec fn view(&self) -> Map<Seq<u8>, TokenData> {
        self.tokens@
    }
}

impl TokenManager {
    /// The principal that may mint.
    pub closed spec fn spec_admin(&self) -> Principal {
        self.admin
    }

    /// A registry without tokens, administered by `admin`.
    pub fn initialize(admin: Principal) -> (manager: Self)
        ensures
            manager@ == Map::<Seq<u8>, TokenData>::empty(),
            manager.admin() == admin,
    {
        TokenManager { admin, tokens: Store::new() }
    }

    /// The principal that may mint.
    #[verifier::when_used_as_spec(spec_admin)]
    pub fn admin(&self) -> (admin: Principal)
        ensures
            admin == self.spec_admin(),
    {
        self.admin
    }

    /// Issues the token for `will_id` to `to`, under an id derived from the
    /// will's id, and returns that id. A token issued earlier for the same
    /// will is replaced.
    pub fn mint_token(
        &mut self,
        caller: &Principal,
        to: Principal,
        will_id: [u8; 32],
        metadata: [u8; 32],
        now: u64,
    ) -> (result: Result<[u8; 32], WillError>)
        ensures
            final(self).admin() == old(self).admin(),
            reports(
                mint_outcome(old(self).admin(), *caller, to, will_id, metadata, now),
                result,
            ),
            final(self)@ == records_after(
                old(self)@,
                token_id_digest(will_id),
                mint_outcome(old(self).admin(), *caller, to, will_id, metadata, now),
            ),
            result matches Ok(token_id) ==> token_id@ == token_id_digest(will_id),
    {
        let token_id = derive_token_id(&will_id);
        self.mint_token_with_id(token_id, caller, to, will_id, metadata, now)
    }

    /// Issues the token for `will_id` to `to` under `token_id`, in place of
    /// what was stored there.
    pub fn mint_token_with_id(
        &mut self,
        token_id: [u8; 32],
        caller: &Principal,
        to: Principal,
        will_id: [u8; 32],
        metadata: [u8; 32],
        now: u64,
    ) -> (result: Result<[u8; 32], WillError>)
        ensures
            final(self).admin() == old(self).admin(),
            reports(
                mint_outcome(old(self).admin(), *caller, to, will_id, metadata, now),
                result,
            ),
            final(self)@ == records_after(
                old(self)@,
                token_id@,
                mint_outcome(old(self).admin(), *caller, to, will_id, metadata, now),
            ),
            result matches Ok(stored_under) ==> stored_under == token_id,
    {
        if *caller != self.admin {
            return Err(WillError::Unauthorized);
        }
        self.tokens.set(token_id, TokenData { will_id, owner: to, metadata, issued_at: now });
        Ok(token_id)
    }

    /// Puts back, under `token_id` and as it is, a token that was read from
    /// persistent storage.
    pub fn restore(&mut self, token_id: [u8; 32], token: TokenData)
        ensures
            final(self).admin() == old(self).admin(),
            final(self)@ == old(self)@.insert(token_id@, token),
    {
        self.tokens.set(token_id, token);
    }

    /// Hands the token under `token_id` from its owner `from` to `to`.
    pub fn transfer_token(
        &mut self,
        caller: &Principal,
        from: &Principal,
        to: Principal,
        token_id: &[u8; 32],
    ) -> (result: Result<(), WillError>)
        ensures
            final(self).admin() == old(self).admin(),
            reports(transfer_outcome(old(self)@, token_id@, *caller, *from, to), result),
            final(self)@ == records_after(
                old(self)@,
                token_id@,
                transfer_outcome(old(self)@, token_id@, *caller, *from, to),
            ),
    {
        let token = match self.tokens.get(token_id) {
            None => {
                return Err(WillError::NotFound);
            },
            Some(token) => *token,
        };
        if *caller != *from || token.owner != *from {
            return Err(WillError::Unauthorized);
        }
        self.tokens.set(*token_id, TokenData { owner: to, ..token });
        Ok(())
    }

    /// The token stored under `token_id`.
    pub fn get_token_data(&self, token_id: &[u8; 32]) -> (result: Result<TokenData, WillError>)
        ensures
            self@.contains_key(token_id@) ==> result == Ok::<TokenData, WillError>(
                self@[token_id@],
            ),
            !self@.contains_key(token_id@) ==> result == Err::<TokenData, WillError>(
                WillError::NotFound,
            ),
    {
        match self.tokens.get(token_id) {
            Some(token) => Ok(*token),
            None => Err(WillError::NotFound),
        }
    }
}

} // verus!
