//! The chain accumulator: an append-only Merkle mountain range over the hashes
//! of the block headers, oldest first.
use miden_objects::crypto::hash::rpo::RpoDigest;
use miden_objects::crypto::merkle::{Mmr, MmrError, MmrPeaks};
use miden_objects::Felt;
use vstd::pervasive::unreached;
use vstd::prelude::*;

use crate::digest::Digest;

verus! {

// ---------------------------------------------------------------------------
// The outside accumulator and what is taken on trust about it
// ---------------------------------------------------------------------------
// Digests go to the outside crate and come back element by element. Every
// element of a `Digest` is below the field modulus, so nothing is lost on the
// way.

/// `Mmr` of the outside crate: the Merkle mountain range. What it holds is named by
/// [`mmr_leaves`].
#[verifier::external_type_specification]
#[verifier::external_body]
pub struct ExMmr(Mmr);

/// `MmrPeaks` of the outside crate: the peaks of a Merkle mountain range at
/// some size. They are carried through as they are.
#[verifier::external_type_specification]
#[verifier::external_body]
pub struct ExMmrPeaks(MmrPeaks);

/// `MmrError` of the outside crate: why the accumulator could not answer.
/// Nothing is known of its contents.
#[verifier::external_type_specification]
#[verifier::external_body]
pub struct ExMmrError(MmrError);

/// The leaves that were appended to the accumulator, oldest first.
pub uninterp spec fn mmr_leaves(mmr: Mmr) -> Seq<Digest>;

/// The peaks of the accumulator that holds exactly `leaves`.
pub uninterp spec fn mmr_peaks_of(leaves: Seq<Digest>) -> MmrPeaks;

/// The hash that commits to a set of peaks.
pub uninterp spec fn mmr_peaks_hash(peaks: MmrPeaks) -> Digest;

/// The hashes that take a client who holds the peaks of the first `from`
/// leaves to the peaks of all of `leaves`, for `from` less than their number.
pub uninterp spec fn mmr_delta_nodes(leaves: Seq<Digest>, from: usize) -> Seq<Digest>;

/// An accumulator to which nothing was appended.
pub open spec fn empty_chain() -> Seq<Digest> {
    Seq::empty()
}

/// Whether the accumulator with the given leaves can answer for the size `forest`.
pub open spec fn forest_known(leaves: Seq<Digest>, forest: usize) -> bool {
    forest <= leaves.len()
}

/// Whether the accumulator with the given leaves can give the delta from one
/// size to another.
pub open spec fn delta_known(leaves: Seq<Digest>, from: usize, to: usize) -> bool {
    from <= to && to <= leaves.len()
}

/// The data of the delta from size `from` to size `to`: nothing where the two
/// are equal.
pub open spec fn mmr_delta_data(leaves: Seq<Digest>, from: usize, to: usize) -> Seq<Digest> {
    if from == to {
        Seq::empty()
    } else {
        mmr_delta_nodes(leaves.take(to as int), from)
    }
}

/// Whether one more leaf can be counted.
pub open spec fn can_grow(leaves: Seq<Digest>) -> bool {
    leaves.len() < usize::MAX
}

/// `Mmr::from`: the accumulator to which the hashes were appended in order.
#[verifier::external_body]
fn mmr_from(hashes: &Vec<Digest>) -> (mmr: Mmr)
    ensures
        mmr_leaves(mmr) == hashes@,
{
    Mmr::from(
        hashes.iter().map(
            |d|
                RpoDigest::new(
                    [Felt::new(d.e0), Felt::new(d.e1), Felt::new(d.e2), Felt::new(d.e3)],
                ),
        ),
    )
}

/// `Mmr::clone`: an accumulator with the same leaves.
#[verifier::external_body]
fn mmr_clone(mmr: &Mmr) -> (copy: Mmr)
    ensures
        mmr_leaves(copy) == mmr_leaves(*mmr),
{
    mmr.clone()
}

/// `Mmr::add`: appends one leaf. The count of leaves must not be at its
/// largest value, where the addition in the outside code would overflow.
#[verifier::external_body]
fn mmr_add(mmr: &mut Mmr, leaf: &Digest)
    requires
        can_grow(mmr_leaves(*old(mmr))),
    ensures
        mmr_leaves(*final(mmr)) == mmr_leaves(*old(mmr)).push(*leaf),
{
    mmr.add(
        RpoDigest::new([Felt::new(leaf.e0), Felt::new(leaf.e1), Felt::new(leaf.e2), Felt::new(leaf.e3)]),
    )
}

/// `Mmr::forest`: the number of leaves.
#[verifier::external_body]
fn mmr_forest(mmr: &Mmr) -> (forest: usize)
    ensures
        forest == mmr_leaves(*mmr).len(),
{
    mmr.forest()
}

/// `Mmr::peaks`: the peaks as they were when the accumulator held its first
/// `forest` leaves. Fails exactly when it holds fewer. Leaves appended later
/// do not change the nodes that the earlier ones made, so the result is that
/// of the accumulator with the first `forest` leaves alone.
#[verifier::external_body]
fn mmr_peaks(mmr: &Mmr, forest: usize) -> (r: Result<MmrPeaks, MmrError>)
    ensures
        r is Ok <==> forest_known(mmr_leaves(*mmr), forest),
        r matches Ok(peaks) ==> peaks == mmr_peaks_of(mmr_leaves(*mmr).take(forest as int)),
{
    mmr.peaks(forest)
}

/// `MmrPeaks::hash_peaks`: the hash of the peaks, padded as the outside crate pads them.
#[verifier::external_body]
pub(crate) fn peaks_hash(peaks: &MmrPeaks) -> (hash: Digest)
    ensures
        hash == mmr_peaks_hash(*peaks),
{
    let r = peaks.hash_peaks();
    Digest { e0: r[0].as_int(), e1: r[1].as_int(), e2: r[2].as_int(), e3: r[3].as_int() }
}

/// `Mmr::get_delta`: the size reached and the hashes that lead from size
/// `from` to size `to`. Fails exactly when `to` is more than the accumulator
/// holds or `from` is more than `to`. The hashes are those of the accumulator
/// with the first `to` leaves alone, and there are none where `from` is `to`.
#[verifier::external_body]
fn mmr_get_delta(mmr: &Mmr, from: usize, to: usize) -> (r: Result<(usize, Vec<Digest>), MmrError>)
    ensures
        r is Ok <==> delta_known(mmr_leaves(*mmr), from, to),
        r matches Ok(delta) ==> delta.0 == to,
        r matches Ok(delta) ==> delta.1@ == mmr_delta_nodes(mmr_leaves(*mmr).take(to as int), from),
        r matches Ok(delta) ==> from != to || delta.1@.len() == 0,
{
    let delta = mmr.get_delta(from, to)?;
    let data = delta.data.iter().map(
        |d| Digest { e0: d[0].as_int(), e1: d[1].as_int(), e2: d[2].as_int(), e3: d[3].as_int() },
    ).collect();
    Ok((delta.forest, data))
}

// ---------------------------------------------------------------------------
// The chain accumulator
// ---------------------------------------------------------------------------

/// What a client needs to bring its own view of the chain accumulator forward.
#[derive(Clone, Debug, PartialEq, Eq)]
pub struct MmrDelta {
    /// The size of the accumulator that the delta leads to.
    pub forest: usize,
    /// The hashes to fold in: first those that merge trees the client knows,
    /// then the new peaks.
    pub data: Vec<Digest>,
}

/// Append-only accumulator of block hashes. Its size is called the forest.
pub struct ChainMmr {
    mmr: Mmr,
}

impl View for ChainMmr {
    type V = Seq<Digest>;

    closed spec fn view(&self) -> Seq<Digest> {
        mmr_leaves(self.mmr)
    }
}

impl Clone for ChainMmr {
    /// A second accumulator with the same leaves; the two are independent afterwards.
    fn clone(&self) -> (copy: Self)
        ensures
            copy@ == self@,
    {
        ChainMmr { mmr: mmr_clone(&self.mmr) }
    }
}

/// The chain root of the accumulator that holds exactly `leaves`.
pub open spec fn chain_root_of(leaves: Seq<Digest>) -> Digest {
    mmr_peaks_hash(mmr_peaks_of(leaves))
}

impl ChainMmr {
    /// An accumulator without leaves.
    pub fn new() -> (chain: ChainMmr)
        ensures
            chain@ == empty_chain(),
    {
        let none: Vec<Digest> = Vec::new();
        ChainMmr { mmr: mmr_from(&none) }
    }

    /// The accumulator of the given block hashes, oldest first.
    pub fn from_hashes(hashes: &Vec<Digest>) -> (chain: ChainMmr)
        ensures
            chain@ == hashes@,
    {
        ChainMmr { mmr: mmr_from(hashes) }
    }

    /// Appends a block hash; the forest grows by one.
    pub fn add(&mut self, hash: &Digest)
        requires
            old(self)@.len() < usize::MAX,
        ensures
            final(self)@ == old(self)@.push(*hash),
    {
        mmr_add(&mut self.mmr, hash)
    }

    /// The number of block hashes appended so far.
    pub fn forest(&self) -> (forest: usize)
        ensures
            forest == self@.len(),
    {
        mmr_forest(&self.mmr)
    }

    /// The chain root: the hash of the current peaks.
    pub fn root(&self) -> (root: Digest)
        ensures
            root == chain_root_of(self@),
    {
        let forest = mmr_forest(&self.mmr);
        proof {
            assert(self@.take(forest as int) =~= self@);
        }
        match mmr_peaks(&self.mmr, forest) {
            Ok(peaks) => peaks_hash(&peaks),
            Err(_) => unreached(),
        }
    }

    /// The peaks as of the size `forest`: those of the accumulator that holds
    /// the first `forest` hashes. Fails exactly when `forest` is more than the
    /// current size.
    pub fn peaks(&self, forest: usize) -> (r: Result<MmrPeaks, MmrError>)
        ensures
            r is Ok <==> forest <= self@.len(),
            r matches Ok(peaks) ==> peaks == mmr_peaks_of(self@.take(forest as int)),
    {
        mmr_peaks(&self.mmr, forest)
    }

    /// The delta that takes a client from the size `from_forest` to the size
    /// `to_forest`. Fails exactly when `to_forest` is more than the current
    /// size or `from_forest` is more than `to_forest`.
    pub fn get_delta(&self, from_forest: usize, to_forest: usize) -> (r: Result<MmrDelta, MmrError>)
        ensures
            r is Ok <==> from_forest <= to_forest <= self@.len(),
            r matches Ok(delta) ==> delta.forest == to_forest && delta.data@ == mmr_delta_data(
                self@,
                from_forest,
                to_forest,
            ),
    {
        match mmr_get_delta(&self.mmr, from_forest, to_forest) {
            Ok((forest, data)) => {
                assert(data@ =~= mmr_delta_data(self@, from_forest, to_forest));
                Ok(MmrDelta { forest, data })
            },
            Err(e) => Err(e),
        }
    }
}

} // verus!
