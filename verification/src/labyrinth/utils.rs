use vstd::prelude::*;

use crate::decimal::Decimal;

verus! {

/// The 30 bytes of the resource address that `text` spells in Bech32m for
/// the Stokenet network, or `None` when it spells none.
pub uninterp spec fn stokenet_resource_address(text: Seq<char>) -> Option<Seq<u8>>;

/// `ResourceAddress::try_from_bech32` of scrypto, with the address decoder
/// of `NetworkDefinition::stokenet()`: decodes `text` and gives back the
/// address's bytes. Only that the result is a function of `text` and has
/// 30 bytes is stated; Bech32m decoding itself is not.
#[verifier::external_body]
fn decode_stokenet_resource_address(text: &str) -> (r: Option<Vec<u8>>)
    ensures
        match r {
            Some(bytes) => stokenet_resource_address(text@) == Some(bytes@),
            None => stokenet_resource_address(text@) is None,
        },
        r matches Some(bytes) ==> bytes@.len() == 30,
{
    let decoder = scrypto::prelude::AddressBech32Decoder::new(&scrypto::prelude::NetworkDefinition::stokenet());
    match scrypto::prelude::ResourceAddress::try_from_bech32(&decoder, text) {
        Some(address) => Some(address.to_vec()),
        None => None,
    }
}

/// The address of the core badge resource on Stokenet, as its 30 bytes.
pub fn get_core_address() -> (r: Option<Vec<u8>>)
    ensures
        match r {
            Some(bytes) => stokenet_resource_address(
                "resource_tdx_2_1n20fntprpwav2hssr4xtuyljdcrnl7pkhl4l4f8l09shjm9gs5ywr8"@,
            ) == Some(bytes@) && bytes@.len() == 30,
            None => stokenet_resource_address(
                "resource_tdx_2_1n20fntprpwav2hssr4xtuyljdcrnl7pkhl4l4f8l09shjm9gs5ywr8"@,
            ) is None,
        },
{
    decode_stokenet_resource_address("resource_tdx_2_1n20fntprpwav2hssr4xtuyljdcrnl7pkhl4l4f8l09shjm9gs5ywr8")
}

/// The data of an admin badge: the reward it has earned.
pub struct ArcaneAdminData {
    pub reward: Decimal,
}

/// The data of a member badge: the reward it has earned.
pub struct ArcaneMemberData {
    pub reward: Decimal,
}

/// The data of the core badge: the reward it has earned.
pub struct ArcaneCoreData {
    pub reward: Decimal,
}

} // verus!
