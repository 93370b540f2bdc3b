use vstd::prelude::*;

verus! {

/// A 32-byte account identity, held as its high and low 16 bytes.
#[derive(Clone, Copy, Debug, PartialEq, Eq, Structural)]
pub struct Address {
    pub hi: u128,
    pub lo: u128,
}

/// A fungible-token wallet: which token it holds, who controls it, how much.
#[derive(Clone, Copy, Debug, PartialEq, Eq, Structural)]
pub struct TokenAccount {
    pub mint: Address,
    pub owner: Address,
    pub amount: u64,
}

impl TokenAccount {
    /// An empty wallet of token `mint` controlled by `owner`.
    pub open spec fn new_spec(mint: Address, owner: Address) -> TokenAccount {
        TokenAccount { mint, owner, amount: 0 }
    }

    /// An empty wallet of token `mint` controlled by `owner`.
    #[verifier::when_used_as_spec(new_spec)]
    pub fn new(mint: Address, owner: Address) -> (r: TokenAccount)
        ensures
            r == Self::new_spec(mint, owner),
    {
        TokenAccount { mint, owner, amount: 0 }
    }
}

/// What a wallet that may have been closed holds; a closed one holds nothing.
pub open spec fn held(w: Option<TokenAccount>) -> nat {
    match w {
        Some(a) => a.amount as nat,
        None => 0,
    }
}

} // verus!
