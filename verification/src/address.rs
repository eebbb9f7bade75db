//! Where the records live. No record points at another: the address of
//! each is derived from a fixed tag and the keys it belongs to, so that any
//! party can find it again.

use crate::accounts::{Contribute, InitializeCampaign, Refund, Withdraw};
use crate::key::Key;
use vstd::prelude::*;

verus! {

/// The tag of campaign records: `campaign` in ASCII.
pub open spec fn campaign_tag() -> Seq<u8> {
    seq![99u8, 97u8, 109u8, 112u8, 97u8, 105u8, 103u8, 110u8]
}

/// The tag of escrows: `vault` in ASCII.
pub open spec fn vault_tag() -> Seq<u8> {
    seq![118u8, 97u8, 117u8, 108u8, 116u8]
}

/// The tag of backer records: `backer` in ASCII.
pub open spec fn backer_tag() -> Seq<u8> {
    seq![98u8, 97u8, 99u8, 107u8, 101u8, 114u8]
}

/// The seeds of the campaign record of `creator`: one campaign for each
/// creator.
pub open spec fn campaign_seeds(creator: Key) -> Seq<Seq<u8>> {
    seq![campaign_tag(), creator@]
}

/// The seeds of the escrow of the campaign at `campaign`.
pub open spec fn vault_seeds(campaign: Key) -> Seq<Seq<u8>> {
    seq![vault_tag(), campaign@]
}

/// The seeds of the record of `backer` for the campaign at `campaign`.
pub open spec fn backer_seeds(campaign: Key, backer: Key) -> Seq<Seq<u8>> {
    seq![backer_tag(), campaign@, backer@]
}

/// The address that the ledger derives for a program from seeds, with the
/// bump that makes it one; `None` where no bump does, or the seeds are too
/// many or too long.
pub uninterp spec fn derived_address(seeds: Seq<Seq<u8>>, program_id: Seq<u8>) -> Option<
    (Seq<u8>, u8),
>;

/// Whether `key` is the address derived from `seeds` for `program_id`.
pub open spec fn derives(seeds: Seq<Seq<u8>>, program_id: Key, key: Key) -> bool {
    derived_address(seeds, program_id@) matches Some((address, _)) && address == key@
}

/// Calls `Pubkey::try_find_program_address` of `anchor_lang::prelude`.
///
/// Trusted: the result is a function of the seeds and the program's key
/// alone, here called `derived_address`. Nothing is claimed of its value.
#[verifier::external_body]
pub(crate) fn try_find_program_address(seeds: &Vec<Vec<u8>>, program_id: &Key) -> (found: Option<
    (Key, u8),
>)
    ensures
        match found {
            Some((address, bump)) => derived_address(seeds.deep_view(), program_id@) == Some(
                (address@, bump),
            ),
            None => derived_address(seeds.deep_view(), program_id@) is None,
        },
{
    let parts: Vec<&[u8]> = seeds.iter().map(|seed| seed.as_slice()).collect();
    let program = anchor_lang::prelude::Pubkey::new_from_array(program_id.bytes);
    match anchor_lang::prelude::Pubkey::try_find_program_address(&parts, &program) {
        Some((address, bump)) => Some((Key { bytes: address.to_bytes() }, bump)),
        None => None,
    }
}

/// Tells whether `key` is the address in `found`.
pub fn is_found_at(found: &Option<(Key, u8)>, key: &Key) -> (b: bool)
    ensures
        b == (*found matches Some((address, _)) && address@ == key@),
{
    match found {
        Some((address, _)) => {
            proof {
                address.same_view(*key);
            }
            *address == *key
        },
        None => false,
    }
}

/// The address of the campaign record of `creator`, with its bump.
pub fn campaign_address(program_id: &Key, creator: &Key) -> (found: Option<(Key, u8)>)
    ensures
        match found {
            Some((address, bump)) => derived_address(campaign_seeds(*creator), program_id@)
                == Some((address@, bump)),
            None => derived_address(campaign_seeds(*creator), program_id@) is None,
        },
{
    let mut seeds: Vec<Vec<u8>> = Vec::new();
    seeds.push(vec![99u8, 97u8, 109u8, 112u8, 97u8, 105u8, 103u8, 110u8]);
    seeds.push(creator.to_vec());
    assert(seeds.deep_view() =~~= campaign_seeds(*creator));
    try_find_program_address(&seeds, program_id)
}

/// The address of the escrow of the campaign at `campaign`, with its bump.
pub fn vault_address(program_id: &Key, campaign: &Key) -> (found: Option<(Key, u8)>)
    ensures
        match found {
            Some((address, bump)) => derived_address(vault_seeds(*campaign), program_id@)
                == Some((address@, bump)),
            None => derived_address(vault_seeds(*campaign), program_id@) is None,
        },
{
    let mut seeds: Vec<Vec<u8>> = Vec::new();
    seeds.push(vec![118u8, 97u8, 117u8, 108u8, 116u8]);
    seeds.push(campaign.to_vec());
    assert(seeds.deep_view() =~~= vault_seeds(*campaign));
    try_find_program_address(&seeds, program_id)
}

/// The address of the record of `backer` for the campaign at `campaign`,
/// with its bump.
pub fn backer_address(program_id: &Key, campaign: &Key, backer: &Key) -> (found: Option<
    (Key, u8),
>)
    ensures
        match found {
            Some((address, bump)) => derived_address(
                backer_seeds(*campaign, *backer),
                program_id@,
            ) == Some((address@, bump)),
            None => derived_address(backer_seeds(*campaign, *backer), program_id@) is None,
        },
{
    let mut seeds: Vec<Vec<u8>> = Vec::new();
    seeds.push(vec![98u8, 97u8, 99u8, 107u8, 101u8, 114u8]);
    seeds.push(campaign.to_vec());
    seeds.push(backer.to_vec());
    assert(seeds.deep_view() =~~= backer_seeds(*campaign, *backer));
    try_find_program_address(&seeds, program_id)
}

impl InitializeCampaign {
    /// Whether the campaign record sits at the address derived for the
    /// creator, and the escrow at the one derived for the campaign.
    pub open spec fn addressed(&self, program_id: Key) -> bool {
        &&& derives(campaign_seeds(self.creator.key), program_id, self.campaign.key)
        &&& derives(vault_seeds(self.campaign.key), program_id, self.campaign_vault.key)
    }

    /// Tells whether these are the accounts that the ledger addresses for a
    /// creation by `creator`.
    pub fn is_addressed(&self, program_id: &Key) -> (b: bool)
        ensures
            b == self.addressed(*program_id),
    {
        is_found_at(&campaign_address(program_id, &self.creator.key), &self.campaign.key)
            && is_found_at(
            &vault_address(program_id, &self.campaign.key),
            &self.campaign_vault.key,
        )
    }
}

impl Contribute {
    /// Whether the campaign record sits at the address derived for its
    /// creator, the backer's record at the one derived for campaign and
    /// backer, and the escrow at the one derived for the campaign.
    pub open spec fn addressed(&self, program_id: Key) -> bool {
        &&& derives(campaign_seeds(self.campaign.data.creator), program_id, self.campaign.key)
        &&& derives(
            backer_seeds(self.campaign.key, self.backer.key),
            program_id,
            self.backer_state.key,
        )
        &&& derives(vault_seeds(self.campaign.key), program_id, self.campaign_vault.key)
    }

    /// Tells whether these are the accounts that the ledger addresses for a
    /// contribution by `backer` to `campaign`.
    pub fn is_addressed(&self, program_id: &Key) -> (b: bool)
        ensures
            b == self.addressed(*program_id),
    {
        is_found_at(&campaign_address(program_id, &self.campaign.data.creator), &self.campaign.key)
            && is_found_at(
            &backer_address(program_id, &self.campaign.key, &self.backer.key),
            &self.backer_state.key,
        ) && is_found_at(
            &vault_address(program_id, &self.campaign.key),
            &self.campaign_vault.key,
        )
    }
}

impl Withdraw {
    /// Whether the campaign record sits at the address derived for its
    /// creator, and the escrow at the one derived for the campaign.
    pub open spec fn addressed(&self, program_id: Key) -> bool {
        &&& derives(campaign_seeds(self.campaign.data.creator), program_id, self.campaign.key)
        &&& derives(vault_seeds(self.campaign.key), program_id, self.campaign_vault.key)
    }

    /// Tells whether these are the accounts that the ledger addresses for a
    /// withdrawal from `campaign`.
    pub fn is_addressed(&self, program_id: &Key) -> (b: bool)
        ensures
            b == self.addressed(*program_id),
    {
        is_found_at(&campaign_address(program_id, &self.campaign.data.creator), &self.campaign.key)
            && is_found_at(
            &vault_address(program_id, &self.campaign.key),
            &self.campaign_vault.key,
        )
    }
}

impl Refund {
    /// Whether the campaign record sits at the address derived for its
    /// creator, the backer's record at the one derived for campaign and
    /// backer, and the escrow at the one derived for the campaign.
    pub open spec fn addressed(&self, program_id: Key) -> bool {
        &&& derives(campaign_seeds(self.campaign.data.creator), program_id, self.campaign.key)
        &&& derives(
            backer_seeds(self.campaign.key, self.backer.key),
            program_id,
            self.backer_state.key,
        )
        &&& derives(vault_seeds(self.campaign.key), program_id, self.campaign_vault.key)
    }

    /// Tells whether these are the accounts that the ledger addresses for a
    /// refund of `backer` from `campaign`.
    pub fn is_addressed(&self, program_id: &Key) -> (b: bool)
        ensures
            b == self.addressed(*program_id),
    {
        is_found_at(&campaign_address(program_id, &self.campaign.data.creator), &self.campaign.key)
            && is_found_at(
            &backer_address(program_id, &self.campaign.key, &self.backer.key),
            &self.backer_state.key,
        ) && is_found_at(
            &vault_address(program_id, &self.campaign.key),
            &self.campaign_vault.key,
        )
    }
}

/// A creator has one campaign: two creations by the same creator, both
/// addressed, are handed the same campaign slot and the same escrow.
pub proof fn one_campaign_for_each_creator(
    first: InitializeCampaign,
    second: InitializeCampaign,
    program_id: Key,
)
    requires
        first.addressed(program_id),
        second.addressed(program_id),
        first.creator.key == second.creator.key,
    ensures
        first.campaign.key == second.campaign.key,
        first.campaign_vault.key == second.campaign_vault.key,
{
    first.campaign.key.same_view(second.campaign.key);
    first.campaign_vault.key.same_view(second.campaign_vault.key);
}

/// A campaign and a backer have one record between them: a refund that is
/// addressed works on the very record that the backer's addressed
/// contributions to that campaign filled, and on the same escrow.
pub proof fn one_record_for_each_backer(giving: Contribute, reclaiming: Refund, program_id: Key)
    requires
        giving.addressed(program_id),
        reclaiming.addressed(program_id),
        giving.campaign.key == reclaiming.campaign.key,
        giving.backer.key == reclaiming.backer.key,
    ensures
        giving.backer_state.key == reclaiming.backer_state.key,
        giving.campaign_vault.key == reclaiming.campaign_vault.key,
{
    giving.backer_state.key.same_view(reclaiming.backer_state.key);
    giving.campaign_vault.key.same_view(reclaiming.campaign_vault.key);
}

/// The bytes of the seeds one after the other: what the derivation hashes.
pub open spec fn joined(seeds: Seq<Seq<u8>>) -> Seq<u8>
    decreases seeds.len(),
{
    if seeds.len() == 0 {
        Seq::empty()
    } else {
        joined(seeds.drop_last()) + seeds.last()
    }
}

/// The derivation is fed different bytes for different records: the seeds
/// of two records, joined, are equal only if the records are of one kind
/// and belong to the same keys.
pub proof fn seeds_tell_records_apart(a: Key, b: Key, c: Key, d: Key)
    ensures
        joined(campaign_seeds(a)) == joined(campaign_seeds(c)) ==> a == c,
        joined(vault_seeds(a)) == joined(vault_seeds(c)) ==> a == c,
        joined(backer_seeds(a, b)) == joined(backer_seeds(c, d)) ==> a == c && b == d,
        joined(campaign_seeds(a)) != joined(vault_seeds(c)),
        joined(campaign_seeds(a)) != joined(backer_seeds(c, d)),
        joined(vault_seeds(a)) != joined(backer_seeds(c, d)),
{
    reveal_with_fuel(joined, 4);
    let campaign_a = joined(campaign_seeds(a));
    let campaign_c = joined(campaign_seeds(c));
    let vault_a = joined(vault_seeds(a));
    let vault_c = joined(vault_seeds(c));
    let backer_ab = joined(backer_seeds(a, b));
    let backer_cd = joined(backer_seeds(c, d));
    assert(campaign_seeds(a).drop_last() =~= seq![campaign_tag()]);
    assert(campaign_seeds(c).drop_last() =~= seq![campaign_tag()]);
    assert(vault_seeds(a).drop_last() =~= seq![vault_tag()]);
    assert(vault_seeds(c).drop_last() =~= seq![vault_tag()]);
    assert(backer_seeds(a, b).drop_last() =~= seq![backer_tag(), a@]);
    assert(backer_seeds(c, d).drop_last() =~= seq![backer_tag(), c@]);
    assert(seq![backer_tag(), a@].drop_last() =~= seq![backer_tag()]);
    assert(seq![backer_tag(), c@].drop_last() =~= seq![backer_tag()]);
    assert(seq![campaign_tag()].drop_last() =~= Seq::<Seq<u8>>::empty());
    assert(seq![vault_tag()].drop_last() =~= Seq::<Seq<u8>>::empty());
    assert(seq![backer_tag()].drop_last() =~= Seq::<Seq<u8>>::empty());
    assert(campaign_a =~= campaign_tag() + a@);
    assert(campaign_c =~= campaign_tag() + c@);
    assert(vault_a =~= vault_tag() + a@);
    assert(vault_c =~= vault_tag() + c@);
    assert(backer_ab =~= backer_tag() + a@ + b@);
    assert(backer_cd =~= backer_tag() + c@ + d@);
    if campaign_a == campaign_c {
        assert forall|i: int| 0 <= i < 32 implies a@[i] == c@[i] by {
            assert(campaign_a[8 + i] == a@[i]);
            assert(campaign_c[8 + i] == c@[i]);
        }
        assert(a@ =~= c@);
        a.same_view(c);
    }
    if vault_a == vault_c {
        assert forall|i: int| 0 <= i < 32 implies a@[i] == c@[i] by {
            assert(vault_a[5 + i] == a@[i]);
            assert(vault_c[5 + i] == c@[i]);
        }
        assert(a@ =~= c@);
        a.same_view(c);
    }
    if backer_ab == backer_cd {
        assert forall|i: int| 0 <= i < 32 implies a@[i] == c@[i] && b@[i] == d@[i] by {
            assert(backer_ab[6 + i] == a@[i]);
            assert(backer_cd[6 + i] == c@[i]);
            assert(backer_ab[38 + i] == b@[i]);
            assert(backer_cd[38 + i] == d@[i]);
        }
        assert(a@ =~= c@);
        assert(b@ =~= d@);
        a.same_view(c);
        b.same_view(d);
    }
    assert(campaign_a.len() == 40);
    assert(vault_c.len() == 37);
    assert(backer_cd.len() == 70);
}

} // verus!
