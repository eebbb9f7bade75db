use anchor_lang::prelude::Pubkey;
use anchor_lang::solana_program::system_instruction;
use crowdfund::accounts::{Contribute, InitializeCampaign, Refund, Withdraw};
use crowdfund::address::{backer_address, campaign_address, is_found_at, vault_address};
use crowdfund::key::Key;
use crowdfund::state::{Account, BackerState, Campaign, Wallet};
use crowdfund::transitions::contribute;

fn key(tag: u8) -> Key {
    Key { bytes: [tag; 32] }
}

fn outside(key: &Key) -> Pubkey {
    Pubkey::new_from_array(key.bytes)
}

struct Slots {
    program: Key,
    creator: Key,
    backer: Key,
    campaign: Key,
    vault: Key,
    record: Key,
}

fn slots() -> Slots {
    let program = key(77);
    let creator = key(1);
    let backer = key(2);
    let campaign = campaign_address(&program, &creator).unwrap().0;
    let vault = vault_address(&program, &campaign).unwrap().0;
    let record = backer_address(&program, &campaign, &backer).unwrap().0;
    Slots { program, creator, backer, campaign, vault, record }
}

fn terms(creator: Key) -> Campaign {
    Campaign { creator, goal_lamports: 1000, deadline_unix: 300, total_raised: 0 }
}

#[test]
fn campaign_address_is_derived_from_tag_and_creator() {
    let program = key(77);
    let creator = key(1);
    let (expected, bump) =
        Pubkey::find_program_address(&[b"campaign", creator.bytes.as_ref()], &outside(&program));
    assert_eq!(campaign_address(&program, &creator), Some((Key { bytes: expected.to_bytes() }, bump)));
    assert_ne!(expected.to_bytes(), creator.bytes);
    assert_ne!(expected.to_bytes(), program.bytes);
}

#[test]
fn vault_address_is_derived_from_tag_and_campaign() {
    let program = key(77);
    let campaign = key(10);
    let (expected, bump) =
        Pubkey::find_program_address(&[b"vault", campaign.bytes.as_ref()], &outside(&program));
    assert_eq!(vault_address(&program, &campaign), Some((Key { bytes: expected.to_bytes() }, bump)));
}

#[test]
fn backer_address_is_derived_from_tag_campaign_and_backer() {
    let program = key(77);
    let campaign = key(10);
    let backer = key(2);
    let (expected, bump) = Pubkey::find_program_address(
        &[b"backer", campaign.bytes.as_ref(), backer.bytes.as_ref()],
        &outside(&program),
    );
    assert_eq!(
        backer_address(&program, &campaign, &backer),
        Some((Key { bytes: expected.to_bytes() }, bump))
    );
    // The order of the two keys matters.
    assert_ne!(
        backer_address(&program, &backer, &campaign),
        backer_address(&program, &campaign, &backer)
    );
}

#[test]
fn derived_address_can_be_made_again_from_its_bump() {
    let program = key(77);
    let creator = key(1);
    let (address, bump) = campaign_address(&program, &creator).unwrap();
    let again = Pubkey::create_program_address(
        &[b"campaign", creator.bytes.as_ref(), &[bump]],
        &outside(&program),
    )
    .unwrap();
    assert_eq!(again.to_bytes(), address.bytes);
}

#[test]
fn addresses_differ_by_kind_key_and_program() {
    let program = key(77);
    let a = key(1);
    let b = key(2);
    let all = [
        campaign_address(&program, &a).unwrap().0,
        campaign_address(&program, &b).unwrap().0,
        vault_address(&program, &a).unwrap().0,
        vault_address(&program, &b).unwrap().0,
        backer_address(&program, &a, &b).unwrap().0,
        backer_address(&program, &b, &a).unwrap().0,
        backer_address(&program, &a, &a).unwrap().0,
        campaign_address(&key(78), &a).unwrap().0,
    ];
    for i in 0..all.len() {
        for j in 0..all.len() {
            assert_eq!(all[i] == all[j], i == j);
        }
    }
    // The same inputs give the same address.
    assert_eq!(campaign_address(&program, &a), campaign_address(&program, &a));
}

#[test]
fn is_found_at_compares_the_address_only() {
    assert!(is_found_at(&Some((key(4), 255)), &key(4)));
    assert!(is_found_at(&Some((key(4), 0)), &key(4)));
    assert!(!is_found_at(&Some((key(4), 255)), &key(5)));
    assert!(!is_found_at(&None, &key(4)));
}

#[test]
fn create_accounts_are_addressed() {
    let s = slots();
    let good = InitializeCampaign {
        creator: Wallet { key: s.creator, lamports: 0 },
        campaign: Account { key: s.campaign, data: terms(key(0)) },
        campaign_vault: Wallet { key: s.vault, lamports: 0 },
    };
    assert!(good.is_addressed(&s.program));
    assert!(!good.is_addressed(&key(78)));

    let mut bad = good;
    bad.creator.key = s.backer;
    assert!(!bad.is_addressed(&s.program));
    let mut bad = good;
    bad.campaign.key = s.vault;
    assert!(!bad.is_addressed(&s.program));
    let mut bad = good;
    bad.campaign_vault.key = s.campaign;
    assert!(!bad.is_addressed(&s.program));
}

#[test]
fn contribute_accounts_are_addressed() {
    let s = slots();
    let good = Contribute {
        backer: Wallet { key: s.backer, lamports: 0 },
        campaign: Account { key: s.campaign, data: terms(s.creator) },
        backer_state: Account {
            key: s.record,
            data: BackerState { backer: key(0), campaign: key(0), amount: 0 },
        },
        campaign_vault: Wallet { key: s.vault, lamports: 0 },
    };
    assert!(good.is_addressed(&s.program));
    assert!(!good.is_addressed(&key(78)));

    // The record of another backer.
    let mut bad = good;
    bad.backer_state.key = backer_address(&s.program, &s.campaign, &s.creator).unwrap().0;
    assert!(!bad.is_addressed(&s.program));
    // Another backer with this backer's record.
    let mut bad = good;
    bad.backer.key = s.creator;
    assert!(!bad.is_addressed(&s.program));
    // A campaign record that names another creator.
    let mut bad = good;
    bad.campaign.data.creator = s.backer;
    assert!(!bad.is_addressed(&s.program));
    // The escrow of another campaign.
    let mut bad = good;
    bad.campaign_vault.key = vault_address(&s.program, &s.record).unwrap().0;
    assert!(!bad.is_addressed(&s.program));
}

#[test]
fn withdraw_accounts_are_addressed() {
    let s = slots();
    let good = Withdraw {
        creator: Wallet { key: s.creator, lamports: 0 },
        campaign: Account { key: s.campaign, data: terms(s.creator) },
        campaign_vault: Wallet { key: s.vault, lamports: 0 },
    };
    assert!(good.is_addressed(&s.program));
    // The caller's key plays no part: the record names the creator.
    let mut other = good;
    other.creator.key = s.backer;
    assert!(other.is_addressed(&s.program));

    let mut bad = good;
    bad.campaign.data.creator = s.backer;
    assert!(!bad.is_addressed(&s.program));
    let mut bad = good;
    bad.campaign_vault.key = s.record;
    assert!(!bad.is_addressed(&s.program));
}

#[test]
fn refund_accounts_are_addressed() {
    let s = slots();
    let good = Refund {
        backer: Wallet { key: s.backer, lamports: 0 },
        campaign: Account { key: s.campaign, data: terms(s.creator) },
        backer_state: Account {
            key: s.record,
            data: BackerState { backer: s.backer, campaign: s.campaign, amount: 5 },
        },
        campaign_vault: Wallet { key: s.vault, lamports: 5 },
    };
    assert!(good.is_addressed(&s.program));

    // A caller who presents another backer's record.
    let mut bad = good;
    bad.backer.key = s.creator;
    assert!(!bad.is_addressed(&s.program));
    let mut bad = good;
    bad.backer_state.key = s.vault;
    assert!(!bad.is_addressed(&s.program));
    let mut bad = good;
    bad.campaign.key = s.record;
    assert!(!bad.is_addressed(&s.program));
}

#[test]
fn payment_is_the_system_transfer() {
    let s = slots();
    let mut accounts = Contribute {
        backer: Wallet { key: s.backer, lamports: 5_000_000_000 },
        campaign: Account { key: s.campaign, data: terms(s.creator) },
        backer_state: Account {
            key: s.record,
            data: BackerState { backer: key(0), campaign: key(0), amount: 0 },
        },
        campaign_vault: Wallet { key: s.vault, lamports: 0 },
    };
    let ix = contribute(&mut accounts, 0, 150_000_000).unwrap();
    let expected = system_instruction::transfer(&outside(&s.backer), &outside(&s.vault), 150_000_000);
    assert_eq!(ix.program_id.bytes, expected.program_id.to_bytes());
    assert_eq!(ix.program_id.bytes, anchor_lang::system_program::ID.to_bytes());
    assert_eq!(ix.data, expected.data);
    assert_eq!(ix.accounts.len(), expected.accounts.len());
    for (ours, theirs) in ix.accounts.iter().zip(expected.accounts.iter()) {
        assert_eq!(ours.pubkey.bytes, theirs.pubkey.to_bytes());
        assert_eq!(ours.is_signer, theirs.is_signer);
        assert_eq!(ours.is_writable, theirs.is_writable);
    }
}
