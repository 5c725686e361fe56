//! Patching of a ROM with a patch in the IPS format.
//!
//! The format is parsed by the `ips` crate. What is verified here is the
//! application of the hunks that the parser hands out.

use vstd::prelude::*;

verus! {

/// One hunk of a patch: bytes, and the offset at which they are written.
#[derive(Debug)]
pub struct PatchHunk {
    /// The offset in the patched file.
    pub offset: usize,
    /// The bytes written at the offset.
    pub payload: Vec<u8>,
}

/// Why a ROM was not patched.
#[derive(Debug)]
pub enum PatchError {
    /// The patch is not in the IPS format; with what the parser said.
    Parse(String),
    /// A hunk reaches past the end of the ROM.
    OutOfBounds,
}

/// The hunks of a patch in the IPS format, each as its offset and its
/// bytes and in the order of the patch, as `ips::Patch::parse` gives them;
/// `None` for bytes that the parser refuses.
pub uninterp spec fn spec_ips_hunks(patch: Seq<u8>) -> Option<Seq<(nat, Seq<u8>)>>;

/// The offsets and the bytes of a list of hunks.
pub open spec fn spec_hunks(hunks: Seq<PatchHunk>) -> Seq<(nat, Seq<u8>)> {
    Seq::new(hunks.len(), |i: int| (hunks[i].offset as nat, hunks[i].payload@))
}

/// Parses a patch in the IPS format into its hunks.
///
/// This calls `ips::Patch::parse` and copies each hunk of its result, by
/// `Hunk::offset` and `Hunk::payload`. The contract gives the result a name
/// and claims nothing else of it: the hunks are those that the parser
/// returns, and the call fails exactly where the parser does.
#[verifier::external_body]
fn parse_hunks(patch: &[u8]) -> (r: Result<Vec<PatchHunk>, String>)
    ensures
        match r {
            Ok(hunks) => spec_ips_hunks(patch@) == Some(spec_hunks(hunks@)),
            Err(_) => spec_ips_hunks(patch@).is_none(),
        },
{
    match ips::Patch::parse(patch) {
        Ok(p) => Ok(
            p.hunks().iter().map(
                |h| PatchHunk { offset: h.offset(), payload: h.payload().to_vec() },
            ).collect(),
        ),
        Err(e) => Err(e.to_string()),
    }
}

/// Whether every hunk lies within a ROM of a given length.
pub open spec fn spec_hunks_fit(hunks: Seq<(nat, Seq<u8>)>, len: nat) -> bool {
    forall|i: int| 0 <= i < hunks.len() ==> (#[trigger] hunks[i]).0 + hunks[i].1.len() <= len
}

/// A ROM with one hunk written into it.
pub open spec fn spec_apply_hunk(rom: Seq<u8>, hunk: (nat, Seq<u8>)) -> Seq<u8> {
    Seq::new(
        rom.len(),
        |i: int|
            if hunk.0 <= i < hunk.0 + hunk.1.len() {
                hunk.1[i - hunk.0]
            } else {
                rom[i]
            },
    )
}

/// A ROM with hunks written into it, one after the other.
pub open spec fn spec_apply_hunks(rom: Seq<u8>, hunks: Seq<(nat, Seq<u8>)>) -> Seq<u8>
    decreases hunks.len(),
{
    if hunks.len() == 0 {
        rom
    } else {
        spec_apply_hunk(spec_apply_hunks(rom, hunks.drop_last()), hunks.last())
    }
}

/// Whether every hunk lies within a ROM of a given length.
pub fn hunks_fit(hunks: &[PatchHunk], len: usize) -> (r: bool)
    ensures
        r == spec_hunks_fit(spec_hunks(hunks@), len as nat),
{
    let mut i: usize = 0;
    while i < hunks.len()
        invariant
            i <= hunks@.len(),
            forall|j: int|
                0 <= j < i ==> (#[trigger] spec_hunks(hunks@)[j]).0 + spec_hunks(hunks@)[j].1.len()
                    <= len,
        decreases hunks.len() - i,
    {
        let h = &hunks[i];
        if h.offset > len || h.payload.len() > len - h.offset {
            assert(spec_hunks(hunks@)[i as int].0 + spec_hunks(hunks@)[i as int].1.len() > len);
            return false;
        }
        i = i + 1;
    }
    true
}

/// Writes hunks into a ROM, one after the other. Every hunk lies within the
/// ROM.
pub fn apply_hunks(rom: &mut Vec<u8>, hunks: &[PatchHunk])
    requires
        spec_hunks_fit(spec_hunks(hunks@), old(rom)@.len()),
    ensures
        final(rom)@ == spec_apply_hunks(old(rom)@, spec_hunks(hunks@)),
        final(rom)@.len() == old(rom)@.len(),
{
    let ghost all = spec_hunks(hunks@);
    let len = rom.len();
    let mut i: usize = 0;
    assert(all.take(0) =~= Seq::<(nat, Seq<u8>)>::empty());
    while i < hunks.len()
        invariant
            i <= hunks@.len(),
            all == spec_hunks(hunks@),
            spec_hunks_fit(all, old(rom)@.len()),
            rom@.len() == old(rom)@.len(),
            rom@.len() == len,
            rom@ == spec_apply_hunks(old(rom)@, all.take(i as int)),
        decreases hunks.len() - i,
    {
        let h = &hunks[i];
        let ghost before = rom@;
        assert(all[i as int].0 + all[i as int].1.len() <= rom@.len());
        let mut k: usize = 0;
        while k < h.payload.len()
            invariant
                k <= h.payload@.len(),
                h.offset + h.payload@.len() <= rom@.len(),
                rom@.len() == before.len(),
                rom@.len() == len,
                forall|j: int|
                    0 <= j < rom@.len() ==> rom@[j] == (if h.offset <= j < h.offset + k {
                        h.payload@[j - h.offset]
                    } else {
                        before[j]
                    }),
            decreases h.payload.len() - k,
        {
            rom.set(h.offset + k, h.payload[k]);
            k = k + 1;
        }
        i = i + 1;
        proof {
            assert(all.take(i as int).drop_last() =~= all.take(i as int - 1));
            assert(all.take(i as int).last() == all[i as int - 1]);
            assert(rom@ =~= spec_apply_hunk(before, all[i as int - 1]));
        }
    }
    assert(all.take(hunks@.len() as int) =~= all);
}

/// Patches a ROM with a patch in the IPS format.
///
/// The ROM is left as it is where the patch does not parse, and where one
/// of its hunks reaches past the end of the ROM. Else the hunks are written
/// into the ROM in the order of the patch.
pub fn ips_patch(rom: &mut Vec<u8>, patch: &[u8]) -> (r: Result<(), PatchError>)
    ensures
        match spec_ips_hunks(patch@) {
            None => r matches Err(PatchError::Parse(_)) && final(rom)@ == old(rom)@,
            Some(hunks) => if spec_hunks_fit(hunks, old(rom)@.len()) {
                r.is_ok() && final(rom)@ == spec_apply_hunks(old(rom)@, hunks)
            } else {
                r matches Err(PatchError::OutOfBounds) && final(rom)@ == old(rom)@
            },
        },
{
    match parse_hunks(patch) {
        Err(message) => Err(PatchError::Parse(message)),
        Ok(hunks) => {
            if hunks_fit(hunks.as_slice(), rom.len()) {
                apply_hunks(rom, hunks.as_slice());
                Ok(())
            } else {
                Err(PatchError::OutOfBounds)
            }
        },
    }
}

} // verus!
