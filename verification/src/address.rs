//! Ledger addresses: 32 opaque bytes, their textual form, and the addresses that
//! a program derives from seeds.

use crate::text::is_trimmed;
use solana_program::pubkey::Pubkey;
use std::str::FromStr;
use vstd::prelude::*;

verus! {

/// An opaque fixed-width identifier of a ledger account or program.
#[derive(Clone, Copy, Debug)]
pub struct Address {
    pub bytes: [u8; 32],
}

impl View for Address {
    type V = Seq<u8>;

    open spec fn view(&self) -> Seq<u8> {
        self.bytes@
    }
}

impl DeepView for Address {
    type V = Seq<u8>;

    open spec fn deep_view(&self) -> Seq<u8> {
        self.bytes@
    }
}

/// The system program, which creates accounts.
pub const SYSTEM_PROGRAM_ID: [u8; 32] = [
    0, 0, 0, 0, 0, 0, 0, 0, 0, 0, 0, 0, 0, 0, 0, 0, 0, 0, 0, 0, 0, 0, 0, 0, 0, 0, 0, 0, 0, 0, 0, 0,
];

/// The token program, which owns mints and token accounts.
pub const TOKEN_PROGRAM_ID: [u8; 32] = [
    6, 221, 246, 225, 215, 101, 161, 147, 217, 203, 225, 70, 206, 235, 121, 172, 28, 180, 133, 237,
    95, 91, 55, 145, 58, 140, 245, 133, 126, 255, 0, 169,
];

/// The rent sysvar, which token and exchange instructions read.
pub const RENT_SYSVAR_ID: [u8; 32] = [
    6, 167, 213, 23, 25, 44, 92, 81, 33, 140, 201, 76, 61, 74, 241, 127, 88, 218, 238, 8, 155, 161,
    253, 68, 227, 219, 217, 138, 0, 0, 0, 0,
];

/// What `Pubkey::create_program_address` derives from the seeds under the program;
/// `None` where it reports an error.
pub uninterp spec fn program_address(seeds: Seq<Seq<u8>>, program_id: Seq<u8>) -> Option<Seq<u8>>;

/// The text that `Pubkey`'s `Display` writes for the 32 bytes.
pub uninterp spec fn address_text(bytes: Seq<u8>) -> Seq<char>;

/// The bytes that `Pubkey::from_str` reads from the text; `None` where it reports
/// an error.
pub uninterp spec fn text_address(text: Seq<char>) -> Option<Seq<u8>>;

/// Calls `Pubkey::create_program_address` on the seeds in the given order. The
/// outcome is named `program_address`; nothing more is claimed of it.
#[verifier::external_body]
pub(crate) fn create_program_address(seeds: &Vec<Vec<u8>>, program_id: &Address) -> (derived:
    Option<Address>)
    ensures
        match derived {
            Some(a) => program_address(seeds.deep_view(), program_id@) == Some(a@),
            None => program_address(seeds.deep_view(), program_id@).is_none(),
        },
{
    let slices: Vec<&[u8]> = seeds.iter().map(|s| s.as_slice()).collect();
    Pubkey::create_program_address(&slices, &Pubkey::new_from_array(program_id.bytes))
        .ok()
        .map(|key| Address { bytes: key.to_bytes() })
}

/// Calls `to_string` on the `Pubkey` with these bytes. The text is named
/// `address_text`. Its source writes the 32 bytes in base 58: a text of digits and
/// letters, never empty and without whitespace, that `Pubkey::from_str` reads back to
/// the same 32 bytes.
#[verifier::external_body]
pub(crate) fn address_to_text(address: &Address) -> (text: String)
    ensures
        text@ == address_text(address@),
        text_address(text@) == Some(address@),
        text@.len() > 0,
        is_trimmed(text@),
{
    Pubkey::new_from_array(address.bytes).to_string()
}

/// Calls `Pubkey::from_str`. The outcome is named `text_address`.
#[verifier::external_body]
pub(crate) fn address_from_text(text: &str) -> (parsed: Option<Address>)
    ensures
        match parsed {
            Some(a) => text_address(text@) == Some(a@),
            None => text_address(text@).is_none(),
        },
{
    Pubkey::from_str(text).ok().map(|key| Address { bytes: key.to_bytes() })
}

/// Calls `spl_token::id`, whose bytes are `TOKEN_PROGRAM_ID`.
#[verifier::external_body]
pub(crate) fn token_program_id() -> (id: Address)
    ensures
        id.bytes == TOKEN_PROGRAM_ID,
{
    Address { bytes: spl_token::id().to_bytes() }
}

/// Calls `solana_program::sysvar::rent::id`, whose bytes are `RENT_SYSVAR_ID`.
#[verifier::external_body]
pub(crate) fn rent_sysvar_id() -> (id: Address)
    ensures
        id.bytes == RENT_SYSVAR_ID,
{
    Address { bytes: solana_program::sysvar::rent::id().to_bytes() }
}

/// Two addresses with the same bytes are the same address.
pub proof fn lemma_address_ext(a: Address, b: Address)
    requires
        a@ == b@,
    ensures
        a == b,
{
    assert(a.bytes =~= b.bytes);
}

impl Address {
    /// The address with these bytes.
    pub fn new(bytes: [u8; 32]) -> (a: Address)
        ensures
            a.bytes == bytes,
    {
        Address { bytes }
    }

    /// Whether both addresses hold the same 32 bytes.
    pub fn same(&self, other: &Address) -> (r: bool)
        ensures
            r == (*self == *other),
    {
        let mut i: usize = 0;
        while i < 32
            invariant
                i <= 32,
                forall|j: int| 0 <= j < i ==> self.bytes[j] == other.bytes[j],
            decreases 32 - i,
        {
            if self.bytes[i] != other.bytes[i] {
                return false;
            }
            i += 1;
        }
        assert(self.bytes =~= other.bytes);
        true
    }

    /// The address in its canonical textual form, from which `from_text` reads it
    /// back.
    pub fn to_text(&self) -> (text: String)
        ensures
            text@ == address_text(self@),
            text_address(text@) == Some(self@),
            text@.len() > 0,
            is_trimmed(text@),
    {
        address_to_text(self)
    }

    /// Reads an address from its canonical textual form.
    pub fn from_text(text: &str) -> (parsed: Option<Address>)
        ensures
            match parsed {
                Some(a) => text_address(text@) == Some(a@),
                None => text_address(text@).is_none(),
            },
    {
        address_from_text(text)
    }

    /// The 32 bytes as a vector.
    pub fn to_vec(&self) -> (v: Vec<u8>)
        ensures
            v@ == self@,
    {
        let mut v: Vec<u8> = Vec::new();
        let mut i: usize = 0;
        while i < 32
            invariant
                i <= 32,
                v@ == self@.subrange(0, i as int),
            decreases 32 - i,
        {
            v.push(self.bytes[i]);
            i += 1;
            assert(v@ =~= self@.subrange(0, i as int));
        }
        assert(self@.subrange(0, 32) =~= self@);
        v
    }
}

} // verus!
