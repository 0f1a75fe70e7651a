use vstd::prelude::*;
use crate::address::Address;
use crate::accounts::{TokenAccount, Wallet};
use crate::error::EscrowError;
use anchor_lang::solana_program::pubkey::Pubkey;

verus! {

/// The canonical program-derived address of `seeds` under `program_id`, with
/// its bump seed, or `None` when no bump yields an address off the curve (or
/// the seeds are too many or too long).
pub uninterp spec fn canonical_address_of(seeds: Seq<Seq<u8>>, program_id: Seq<u8>) -> Option<(Seq<u8>, u8)>;

pub open spec fn found_view(r: Option<(Address, u8)>) -> Option<(Seq<u8>, u8)> {
    match r {
        Some((a, b)) => Some((a@, b)),
        None => None,
    }
}

/// Relies on solana_program's Pubkey::try_find_program_address: the search
/// from bump 255 downward is a function of the seeds and the program id alone
/// (hashing and a curve test), and it returns `None` instead of panicking.
#[verifier::external_body]
fn find_program_address(seeds: &Vec<Vec<u8>>, program_id: &Address) -> (r: Option<(Address, u8)>)
    ensures
        found_view(r) == canonical_address_of(seeds.deep_view(), program_id@),
{
    let refs: Vec<&[u8]> = seeds.iter().map(|s| s.as_slice()).collect();
    let program = Pubkey::new_from_array(program_id.bytes);
    Pubkey::try_find_program_address(&refs, &program).map(|(k, b)| (Address { bytes: k.to_bytes() }, b))
}

/// The seed namespace of sale records: the bytes of "sale".
pub open spec fn sale_seed() -> Seq<u8> {
    seq![115u8, 97u8, 108u8, 101u8]
}

/// The seed of the program's value authority: the bytes of "auth".
pub open spec fn authority_seed() -> Seq<u8> {
    seq![97u8, 117u8, 116u8, 104u8]
}

/// Where the sale backed by `token_account` lives, with its bump.
pub open spec fn sale_address(program_id: Address, token_account: Address) -> Option<(Seq<u8>, u8)> {
    canonical_address_of(seq![sale_seed(), token_account@], program_id@)
}

/// The program's value authority, with its bump.
pub open spec fn authority_address(program_id: Address) -> Option<(Seq<u8>, u8)> {
    canonical_address_of(seq![authority_seed()], program_id@)
}

/// Whether `key` and `bump` are what a derivation found.
pub open spec fn is_derived(found: Option<(Seq<u8>, u8)>, key: Address, bump: u8) -> bool {
    found == Some((key@, bump))
}

proof fn lemma_deep_view_bytes(v: Vec<u8>)
    ensures
        v.deep_view() == v@,
{
    assert(v.deep_view() =~= v@);
}

fn seed_bytes(b0: u8, b1: u8, b2: u8, b3: u8) -> (r: Vec<u8>)
    ensures
        r@ == seq![b0, b1, b2, b3],
{
    let mut v: Vec<u8> = Vec::new();
    v.push(b0);
    v.push(b1);
    v.push(b2);
    v.push(b3);
    assert(v@ =~= seq![b0, b1, b2, b3]);
    v
}

/// Derives the address of the sale backed by `token_account`.
pub fn derive_sale_address(program_id: &Address, token_account: &Address) -> (r: Option<(Address, u8)>)
    ensures
        found_view(r) == sale_address(*program_id, *token_account),
{
    let ns = seed_bytes(115, 97, 108, 101);
    let holding = token_account.to_vec();
    let mut seeds: Vec<Vec<u8>> = Vec::new();
    seeds.push(ns);
    seeds.push(holding);
    proof {
        lemma_deep_view_bytes(seeds@[0]);
        lemma_deep_view_bytes(seeds@[1]);
        assert(seeds.deep_view() =~= seq![sale_seed(), token_account@]);
    }
    find_program_address(&seeds, program_id)
}

/// Derives the address of the program's value authority.
pub fn derive_authority_address(program_id: &Address) -> (r: Option<(Address, u8)>)
    ensures
        found_view(r) == authority_address(*program_id),
{
    let ns = seed_bytes(97, 117, 116, 104);
    let mut seeds: Vec<Vec<u8>> = Vec::new();
    seeds.push(ns);
    proof {
        lemma_deep_view_bytes(seeds@[0]);
        assert(seeds.deep_view() =~= seq![authority_seed()]);
    }
    find_program_address(&seeds, program_id)
}

/// Whether a derivation found exactly `key` with `bump`.
pub fn matches_derived(found: &Option<(Address, u8)>, key: &Address, bump: u8) -> (r: bool)
    ensures
        r == is_derived(found_view(*found), *key, bump),
{
    match found {
        Some((a, b)) => a.same(key) && *b == bump,
        None => false,
    }
}

/// Why a lamport transfer signed by `from` is refused, if it is.
pub open spec fn signer_transfer_error(from: Wallet, to: Wallet, amount: u64) -> Option<EscrowError> {
    if !from.is_signer {
        Some(EscrowError::Unauthorized)
    } else if from.lamports < amount {
        Some(EscrowError::InsufficientBalance)
    } else if from.key@ != to.key@ && to.lamports + amount > u64::MAX {
        Some(EscrowError::ArithmeticOverflow)
    } else {
        None
    }
}

/// `w` with its balance set to `lamports`.
pub open spec fn with_lamports(w: Wallet, lamports: int) -> Wallet {
    Wallet { lamports: lamports as u64, ..w }
}

/// Payment leg: moves `amount` lamports from `from`, which must have signed,
/// to `to`. Between two views of one account nothing moves.
pub fn transfer_from_signer(from: &mut Wallet, to: &mut Wallet, amount: u64) -> (r: Result<(), EscrowError>)
    ensures
        match r {
            Ok(()) => signer_transfer_error(*old(from), *old(to), amount) is None && if old(from).key@ == old(to).key@ {
                *final(from) == *old(from) && *final(to) == *old(to)
            } else {
                *final(from) == with_lamports(*old(from), old(from).lamports - amount)
                    && *final(to) == with_lamports(*old(to), old(to).lamports + amount)
            },
            Err(e) => signer_transfer_error(*old(from), *old(to), amount) == Some(e) && *final(from) == *old(from)
                && *final(to) == *old(to),
        },
{
    if !from.is_signer {
        return Err(EscrowError::Unauthorized);
    }
    if from.lamports < amount {
        return Err(EscrowError::InsufficientBalance);
    }
    if from.key.same(&to.key) {
        return Ok(());
    }
    match to.lamports.checked_add(amount) {
        Some(credited) => {
            from.lamports = from.lamports - amount;
            to.lamports = credited;
            Ok(())
        },
        None => Err(EscrowError::ArithmeticOverflow),
    }
}

/// Why the authority's move of `amount` tokens from `from` to `to` is refused, if it is.
pub open spec fn delegate_transfer_error(
    from: TokenAccount,
    to: TokenAccount,
    program_id: Address,
    authority: Address,
    authority_bump: u8,
    amount: u64,
) -> Option<EscrowError> {
    if !is_derived(authority_address(program_id), authority, authority_bump) {
        Some(EscrowError::AddressMismatch)
    } else if from.amount < amount {
        Some(EscrowError::InsufficientBalance)
    } else if from.mint@ != to.mint@ {
        Some(EscrowError::MintMismatch)
    } else if !from.delegated_to(authority) {
        Some(EscrowError::InvalidDelegation)
    } else if from.delegated_amount < amount {
        Some(EscrowError::InsufficientBalance)
    } else if from.key@ != to.key@ && to.amount + amount > u64::MAX {
        Some(EscrowError::ArithmeticOverflow)
    } else {
        None
    }
}

/// `from` after `amount` tokens left it under its allowance. An allowance
/// used up takes the delegate away with it.
pub open spec fn debited(from: TokenAccount, amount: u64) -> TokenAccount {
    TokenAccount {
        amount: (from.amount - amount) as u64,
        delegated_amount: (from.delegated_amount - amount) as u64,
        delegate: if from.delegated_amount == amount {
            None
        } else {
            from.delegate
        },
        ..from
    }
}

/// `to` after `amount` tokens arrived.
pub open spec fn credited(to: TokenAccount, amount: u64) -> TokenAccount {
    TokenAccount { amount: (to.amount + amount) as u64, ..to }
}

/// Token leg: the program's value authority, proven by re-deriving its
/// address from its seed and `authority_bump`, moves `amount` tokens from
/// `from` to `to` under the allowance that `from` delegated to it. The
/// allowance drops by `amount`. Between two views of one holding nothing moves.
pub fn transfer_from_pda(
    from: &mut TokenAccount,
    to: &mut TokenAccount,
    program_id: &Address,
    authority: &Address,
    authority_bump: u8,
    amount: u64,
) -> (r: Result<(), EscrowError>)
    ensures
        match r {
            Ok(()) => delegate_transfer_error(*old(from), *old(to), *program_id, *authority, authority_bump, amount) is None
                && if old(from).key@ == old(to).key@ {
                *final(from) == *old(from) && *final(to) == *old(to)
            } else {
                *final(from) == debited(*old(from), amount) && *final(to) == credited(*old(to), amount)
            },
            Err(e) => delegate_transfer_error(*old(from), *old(to), *program_id, *authority, authority_bump, amount)
                == Some(e) && *final(from) == *old(from) && *final(to) == *old(to),
        },
{
    let found = derive_authority_address(program_id);
    if !matches_derived(&found, authority, authority_bump) {
        return Err(EscrowError::AddressMismatch);
    }
    if from.amount < amount {
        return Err(EscrowError::InsufficientBalance);
    }
    if !from.mint.same(&to.mint) {
        return Err(EscrowError::MintMismatch);
    }
    if !from.is_delegated_to(authority) {
        return Err(EscrowError::InvalidDelegation);
    }
    if from.delegated_amount < amount {
        return Err(EscrowError::InsufficientBalance);
    }
    if from.key.same(&to.key) {
        return Ok(());
    }
    match to.amount.checked_add(amount) {
        Some(credited) => {
            from.amount = from.amount - amount;
            from.delegated_amount = from.delegated_amount - amount;
            if from.delegated_amount == 0 {
                from.delegate = None;
            }
            to.amount = credited;
            Ok(())
        },
        None => Err(EscrowError::ArithmeticOverflow),
    }
}

} // verus!
