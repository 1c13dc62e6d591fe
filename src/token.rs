//! Tokens: an asset identified by the validity predicate that governs it.
use crate::field::Fp;
use vstd::prelude::*;

verus! {

/// A validity predicate, described by its compressed verifying key.
#[derive(Clone, Copy, Debug, PartialEq, Eq)]
pub enum ValidityPredicateDescription {
    Compressed(Fp),
}

impl ValidityPredicateDescription {
    /// The compressed verifying key.
    pub fn get_compressed(&self) -> (r: Fp)
        ensures
            *self == ValidityPredicateDescription::Compressed(r),
    {
        match self {
            ValidityPredicateDescription::Compressed(v) => *v,
        }
    }
}

/// A token type.
#[derive(Clone, Debug)]
pub struct Token {
    pub token_vp: ValidityPredicateDescription,
}

impl Token {
    pub fn new(token_vp_description: ValidityPredicateDescription) -> (r: Token)
        ensures
            r.token_vp == token_vp_description,
    {
        Token { token_vp: token_vp_description }
    }

    /// A token whose predicate key is the given (random) element.
    pub fn dummy(random_vk: Fp) -> (r: Token)
        ensures
            r.token_vp == ValidityPredicateDescription::Compressed(random_vk),
    {
        Token { token_vp: ValidityPredicateDescription::Compressed(random_vk) }
    }

    /// The token's address: the compressed key of its predicate.
    pub fn address(&self) -> (r: Fp)
        ensures
            self.token_vp == ValidityPredicateDescription::Compressed(r),
    {
        self.token_vp.get_compressed()
    }
}

impl Default for Token {
    /// The token whose predicate key is one.
    fn default() -> (r: Token)
        ensures
            r.token_vp matches ValidityPredicateDescription::Compressed(v) && v.wf() && v.value() == 1,
    {
        Token { token_vp: ValidityPredicateDescription::Compressed(Fp::from_u64(1)) }
    }
}

} // verus!
