use vstd::prelude::*;
use vstd::std_specs::cmp::PartialEqSpec;

verus! {

/// A 32-byte account address.
#[derive(Clone, Copy, Debug)]
pub struct Pubkey {
    pub bytes: [u8; 32],
}

impl View for Pubkey {
    type V = Seq<u8>;

    open spec fn view(&self) -> Seq<u8> {
        self.bytes@
    }
}

impl Pubkey {
    /// The address with the given bytes.
    pub fn new_from_array(bytes: [u8; 32]) -> (k: Pubkey)
        ensures
            k.bytes == bytes,
    {
        Pubkey { bytes }
    }

    /// The bytes of the address.
    pub fn to_bytes(self) -> (b: [u8; 32])
        ensures
            b == self.bytes,
    {
        self.bytes
    }
}

impl PartialEq for Pubkey {
    fn eq(&self, other: &Self) -> (r: bool) {
        let mut i: usize = 0;
        while i < 32
            invariant
                0 <= i <= 32,
                self.bytes@.len() == 32,
                other.bytes@.len() == 32,
                forall|j: int| 0 <= j < i ==> self.bytes@[j] == other.bytes@[j],
            decreases 32 - i,
        {
            if self.bytes[i] != other.bytes[i] {
                return false;
            }
            i = i + 1;
        }
        assert(self.bytes@ =~= other.bytes@);
        true
    }
}

impl vstd::std_specs::cmp::PartialEqSpecImpl for Pubkey {
    open spec fn obeys_eq_spec() -> bool {
        true
    }

    open spec fn eq_spec(&self, other: &Self) -> bool {
        self.bytes@ == other.bytes@
    }
}

impl Eq for Pubkey {}

/// Two addresses are equal exactly when all 32 of their bytes are.
pub proof fn pubkey_equality(a: Pubkey, b: Pubkey)
    ensures
        a.eq_spec(&b) <==> forall|i: int| 0 <= i < 32 ==> a.bytes[i] == b.bytes[i],
{
    if forall|i: int| 0 <= i < 32 ==> a.bytes[i] == b.bytes[i] {
        assert(a.bytes@ =~= b.bytes@);
    }
}


/// The address and bump seed that `Pubkey::try_find_program_address` derives
/// from `seeds` under the program `program_id`, or `None` where it finds none.
pub uninterp spec fn program_address(seeds: Seq<Seq<u8>>, program_id: Seq<u8>) -> Option<
    (Seq<u8>, u8),
>;

/// Calls `anchor_lang::prelude::Pubkey::try_find_program_address` (that of
/// `solana_program`) with the two seeds `seed_prefix` and `seed_key` under
/// `program_id`. It claims that what comes back is `program_address` of those
/// seeds and that program id, and, as the function's source shows, that it is
/// `None` when the prefix is longer than the 32 bytes a seed may have. The
/// function does not panic.
#[verifier::external_body]
pub(crate) fn try_find_program_address(
    seed_prefix: &[u8],
    seed_key: &Pubkey,
    program_id: &Pubkey,
) -> (r: Option<(Pubkey, u8)>)
    ensures
        match r {
            Some(found) => program_address(seq![seed_prefix@, seed_key@], program_id@) == Some(
                (found.0@, found.1),
            ),
            None => program_address(seq![seed_prefix@, seed_key@], program_id@) is None,
        },
        seed_prefix@.len() > 32 ==> r is None,
{
    let program = anchor_lang::prelude::Pubkey::new_from_array(program_id.bytes);
    match anchor_lang::prelude::Pubkey::try_find_program_address(
        &[seed_prefix, &seed_key.bytes],
        &program,
    ) {
        Some((address, bump)) => Some((Pubkey { bytes: address.to_bytes() }, bump)),
        None => None,
    }
}

} // verus!
