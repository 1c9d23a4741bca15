//! Message integrity codes: a 4-byte AES-128-CMAC tag over the packet bytes.
use vstd::prelude::*;

verus! {

/// The 128-bit key shared by every member of the mesh.
#[derive(Clone, Copy, PartialEq, Eq, Debug)]
pub struct Aes128Key {
    pub bytes: [u8; 16],
}

impl Aes128Key {
    /// Builds a key from its 16 bytes.
    pub fn from_bytes(bytes: [u8; 16]) -> (r: Aes128Key)
        ensures
            r.bytes == bytes,
    {
        Aes128Key { bytes }
    }

    /// The all-zero key.
    pub fn null() -> (r: Aes128Key)
        ensures
            forall|i: int| 0 <= i < 16 ==> r.bytes[i] == 0,
    {
        Aes128Key { bytes: [0u8; 16] }
    }
}

/// The AES-128-CMAC tag of a message under a key.
pub uninterp spec fn aes128_cmac(key: Seq<u8>, msg: Seq<u8>) -> Seq<u8>;

/// Relies on `cmac::Cmac<aes::Aes128>`: the 16-byte CMAC tag of `msg` under `key`.
#[verifier::external_body]
fn cmac_tag(key: &Aes128Key, msg: &[u8]) -> (r: Vec<u8>)
    ensures
        r@ == aes128_cmac(key.bytes@, msg@),
        r@.len() == 16,
{
    let mut mac = <cmac::Cmac<aes::Aes128> as cmac::Mac>::new((&key.bytes).into());
    cmac::Mac::update(&mut mac, msg);
    cmac::Mac::finalize(mac).into_bytes().to_vec()
}

/// The MIC of a message: the first four bytes of its CMAC tag.
pub open spec fn mic_of(key: Aes128Key, msg: Seq<u8>) -> Seq<u8> {
    aes128_cmac(key.bytes@, msg).subrange(0, 4)
}

/// Computes the MIC of `msg` under `key`.
pub fn compute_mic(key: &Aes128Key, msg: &[u8]) -> (r: [u8; 4])
    ensures
        r@ == mic_of(*key, msg@),
{
    let tag = cmac_tag(key, msg);
    let r: [u8; 4] = [tag[0], tag[1], tag[2], tag[3]];
    assert(r@ =~= mic_of(*key, msg@));
    r
}

} // verus!
