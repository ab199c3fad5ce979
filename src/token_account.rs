use vstd::prelude::*;

use anchor_lang::AccountDeserialize;

use crate::address::Address;
use crate::error::ErrorCode;

verus! {

/// What the vault reads of a token account: its asset, its holder and the
/// amount held.
#[derive(Clone, Copy, Debug)]
pub struct TokenAccountState {
    pub mint: Address,
    pub owner: Address,
    pub amount: u64,
}

/// Size in bytes of a token account's data.
pub const TOKEN_ACCOUNT_LEN: usize = 165;

/// The little-endian number in eight bytes.
pub open spec fn le_u64(b: Seq<u8>) -> int {
    b[0] as int + 0x100 * (b[1] as int) + 0x1_0000 * (b[2] as int) + 0x100_0000 * (b[3] as int)
        + 0x1_0000_0000 * (b[4] as int) + 0x100_0000_0000 * (b[5] as int) + 0x1_0000_0000_0000 * (
    b[6] as int) + 0x100_0000_0000_0000 * (b[7] as int)
}

/// A four-byte option tag at `at`: `[0,0,0,0]` (none) or `[1,0,0,0]` (some).
pub open spec fn option_tag_valid(d: Seq<u8>, at: int) -> bool {
    &&& d[at] == 0 || d[at] == 1
    &&& d[at + 1] == 0
    &&& d[at + 2] == 0
    &&& d[at + 3] == 0
}

/// The layout of an initialized token account: 165 bytes; mint at 0, owner
/// at 32, amount at 64, delegate option at 72, state at 108 (1 initialized,
/// 2 frozen), native option at 109, delegated amount at 121, close-authority
/// option at 129.
pub open spec fn token_account_valid(d: Seq<u8>) -> bool {
    &&& d.len() == TOKEN_ACCOUNT_LEN
    &&& option_tag_valid(d, 72)
    &&& d[108] == 1 || d[108] == 2
    &&& option_tag_valid(d, 109)
    &&& option_tag_valid(d, 129)
}

pub open spec fn mint_bytes(d: Seq<u8>) -> Seq<u8> {
    d.subrange(0, 32)
}

pub open spec fn owner_bytes(d: Seq<u8>) -> Seq<u8> {
    d.subrange(32, 64)
}

pub open spec fn held_amount(d: Seq<u8>) -> int {
    le_u64(d.subrange(64, 72))
}

/// Relies on anchor_spl::token::TokenAccount::try_deserialize, which is
/// spl-token's `Account::unpack`: it accepts exactly the data that
/// `token_account_valid` describes, and reads mint, owner and amount at the
/// offsets given there.
#[verifier::external_body]
fn decode_token_account(data: &[u8]) -> (r: Option<TokenAccountState>)
    ensures
        r is Some <==> token_account_valid(data@),
        r matches Some(a) ==> {
            &&& a.mint.bytes@ == mint_bytes(data@)
            &&& a.owner.bytes@ == owner_bytes(data@)
            &&& a.amount == held_amount(data@)
        },
{
    let mut buf: &[u8] = data;
    match anchor_spl::token::TokenAccount::try_deserialize(&mut buf) {
        Ok(account) => Some(
            TokenAccountState {
                mint: Address::new(account.mint.to_bytes()),
                owner: Address::new(account.owner.to_bytes()),
                amount: account.amount,
            },
        ),
        Err(_) => None,
    }
}

proof fn lemma_address_bytes(a: Address, b: Address)
    ensures
        (a.bytes@ == b.bytes@) <==> (a == b),
{
    broadcast use vstd::array::group_array_axioms;

    if a.bytes@ == b.bytes@ {
        assert forall|i: int| 0 <= i < 32 implies a.bytes[i] == b.bytes[i] by {
            assert(a.bytes@[i] == b.bytes@[i]);
        }
        assert(a.bytes =~= b.bytes);
    }
}

/// Why a token account is not one of `owner` for asset `mint`, if it is not.
pub open spec fn token_account_error(d: Seq<u8>, owner: Address, mint: Address) -> Option<
    ErrorCode,
> {
    if !token_account_valid(d) {
        Some(ErrorCode::InvalidTokenAccount)
    } else if owner_bytes(d) != owner.bytes@ {
        Some(ErrorCode::InvalidTokenAccountOwner)
    } else if mint_bytes(d) != mint.bytes@ {
        Some(ErrorCode::InvalidTokenMint)
    } else {
        None
    }
}

/// Checks that the data is a token account of `owner` for asset `mint`, and
/// returns the amount it holds.
pub fn check_token_account(data: &[u8], owner: Address, mint: Address) -> (r: Result<
    u64,
    ErrorCode,
>)
    ensures
        match r {
            Ok(amount) => token_account_error(data@, owner, mint) is None && amount == held_amount(
                data@,
            ),
            Err(e) => token_account_error(data@, owner, mint) == Some(e),
        },
{
    match decode_token_account(data) {
        None => Err(ErrorCode::InvalidTokenAccount),
        Some(account) => {
            proof {
                lemma_address_bytes(account.owner, owner);
                lemma_address_bytes(account.mint, mint);
            }
            if account.owner != owner {
                Err(ErrorCode::InvalidTokenAccountOwner)
            } else if account.mint != mint {
                Err(ErrorCode::InvalidTokenMint)
            } else {
                Ok(account.amount)
            }
        },
    }
}

/// Whether the data is a token account of `holder` for asset `gate` holding
/// a positive amount.
pub open spec fn gate_passes(d: Seq<u8>, holder: Address, gate: Address) -> bool {
    &&& token_account_valid(d)
    &&& owner_bytes(d) == holder.bytes@
    &&& mint_bytes(d) == gate.bytes@
    &&& held_amount(d) > 0
}

pub fn holds_gate_asset(data: &[u8], holder: Address, gate: Address) -> (r: bool)
    ensures
        r == gate_passes(data@, holder, gate),
{
    match decode_token_account(data) {
        None => false,
        Some(account) => {
            proof {
                lemma_address_bytes(account.owner, holder);
                lemma_address_bytes(account.mint, gate);
            }
            account.owner == holder && account.mint == gate && account.amount > 0
        },
    }
}

} // verus!
