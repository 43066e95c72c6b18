//! Account addresses and the addresses that a program derives from seeds.

use vstd::prelude::*;

verus! {

/// The address of an account: 32 bytes.
#[derive(Clone, Copy, Debug, Eq, Hash)]
pub struct Pubkey(pub [u8; 32]);

impl PartialEq for Pubkey {
    fn eq(&self, other: &Pubkey) -> (equal: bool) {
        let mut i: usize = 0;
        while i < 32
            invariant
                i <= 32,
                forall|j: int| 0 <= j < i ==> self.0[j] == other.0[j],
            decreases 32 - i,
        {
            if self.0[i] != other.0[i] {
                return false;
            }
            i += 1;
        }
        proof {
            assert(self.0 =~= other.0);
        }
        true
    }
}

impl vstd::std_specs::cmp::PartialEqSpecImpl for Pubkey {
    open spec fn obeys_eq_spec() -> bool {
        true
    }

    open spec fn eq_spec(&self, other: &Pubkey) -> bool {
        *self == *other
    }
}

impl View for Pubkey {
    type V = Seq<u8>;

    open spec fn view(&self) -> Seq<u8> {
        self.0@
    }
}

impl Default for Pubkey {
    /// The address of 32 zero bytes.
    fn default() -> (zero: Pubkey)
        ensures
            zero@ == Seq::new(32, |i: int| 0u8),
    {
        Pubkey([0u8;32])
    }
}

/// The bytes of this program's address.
pub const ID: [u8; 32] = [
    13, 77, 220, 180, 213, 84, 192, 97, 143, 214, 204, 68, 74, 30, 177, 200, 129, 38, 52, 231, 254,
    93, 57, 17, 6, 225, 156, 29, 29, 34, 83, 196,
];

/// This program's address.
pub fn id() -> (program: Pubkey)
    ensures
        program@ == ID@,
{
    Pubkey(ID)
}

/// `bytemuck::bytes_of` on a `u8`: the byte seen as a slice of length one.
#[verifier::external_body]
pub(crate) fn bytes_of(byte: &u8) -> (bytes: &[u8])
    ensures
        bytes@ == seq![*byte],
{
    bytemuck::bytes_of(byte)
}

/// The address that a program derives from two seeds, with the bump that
/// completes it, or nothing where no bump gives an address: the result of
/// `Pubkey::try_find_program_address`, which hashes the seeds, a bump counted
/// down from 255 and the program's address until the hash is no point of the
/// curve.
pub uninterp spec fn program_address(seeds: Seq<Seq<u8>>, program_id: Seq<u8>) -> Option<
    (Seq<u8>, u8),
>;

/// `Pubkey::try_find_program_address` of `anchor_lang`, on two seeds. The
/// search depends on the seeds and the program's address alone; the result
/// is named by [`program_address`].
#[verifier::external_body]
pub(crate) fn try_find_program_address(first: &[u8], second: &[u8], program_id: &Pubkey) -> (found:
    Option<(Pubkey, u8)>)
    ensures
        match found {
            Some((address, bump)) => program_address(seq![first@, second@], program_id@) == Some(
                (address@, bump),
            ),
            None => program_address(seq![first@, second@], program_id@) is None,
        },
{
    let program = anchor_lang::prelude::Pubkey::new_from_array(program_id.0);
    match anchor_lang::prelude::Pubkey::try_find_program_address(&[first, second], &program) {
        Some((address, bump)) => Some((Pubkey(address.to_bytes()), bump)),
        None => None,
    }
}

} // verus!
