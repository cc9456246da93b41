use vstd::prelude::*;

verus! {

/// crc32fast's running CRC-32 state.
#[verifier::external_type_specification]
#[verifier::external_body]
pub struct ExHasher(crc32fast::Hasher);

/// The CRC-32 (IEEE 802.3, as crc32fast computes it) of `bytes`.
pub uninterp spec fn crc32_ieee(bytes: Seq<u8>) -> u32;

/// A CRC-32 computation in progress, seen as the bytes fed to it so far.
pub(crate) struct Crc32Digest {
    hasher: crc32fast::Hasher,
    absorbed: Ghost<Seq<u8>>,
}

impl View for Crc32Digest {
    type V = Seq<u8>;

    closed spec fn view(&self) -> Seq<u8> {
        self.absorbed@
    }
}

impl Crc32Digest {
    /// Calls `crc32fast::Hasher::new`; the digest has taken in no bytes yet.
    #[verifier::external_body]
    pub(crate) fn new() -> (d: Self)
        ensures
            d@ == Seq::<u8>::empty(),
    {
        Crc32Digest { hasher: crc32fast::Hasher::new(), absorbed: Ghost(Seq::empty()) }
    }

    /// Calls `crc32fast::Hasher::update`; the digest has then taken in `bytes`
    /// after what it held. Its byte counter is a `u64`, which bounds the total.
    #[verifier::external_body]
    pub(crate) fn update(&mut self, bytes: &[u8])
        requires
            old(self)@.len() + bytes@.len() <= u64::MAX,
        ensures
            final(self)@ == old(self)@ + bytes@,
    {
        self.hasher.update(bytes);
    }

    /// Calls `crc32fast::Hasher::finalize`: the CRC-32 of every byte taken in.
    #[verifier::external_body]
    pub(crate) fn finalize(self) -> (crc: u32)
        ensures
            crc == crc32_ieee(self@),
    {
        self.hasher.finalize()
    }
}

} // verus!
