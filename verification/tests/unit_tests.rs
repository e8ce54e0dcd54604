use fundraiser::error::FundraiserError;
use fundraiser::instruction::initialize::InitializeIxData;
use fundraiser::instruction::contribute::ContributeIxData;
use fundraiser::instruction::{
    process_check_contribution, process_contribute, process_initialize,
};
use fundraiser::ledger::{Account, Mint, TokenAccount};
use fundraiser::pubkey::Pubkey;
use fundraiser::state::fundraiser::FUNDRAISER_LEN;
use fundraiser::state::{Contributor, Fundraiser};

const RENT_FUNDRAISER: u64 = 1_523_520;
const RENT_CONTRIBUTOR: u64 = 953_520;
const LAMPORTS_PER_SOL: u64 = 1_000_000_000;

fn key(fill: u8) -> Pubkey {
    Pubkey::new([fill; 32])
}

fn wallet(fill: u8, signer: bool) -> Account {
    Account {
        key: key(fill),
        lamports: 2 * LAMPORTS_PER_SOL,
        owner: key(0),
        data: Vec::new(),
        is_signer: signer,
    }
}

fn empty_record(fill: u8) -> Account {
    Account { key: key(fill), lamports: 0, owner: key(0), data: Vec::new(), is_signer: false }
}

fn token_account(fill: u8, mint: &Mint, owner: &Pubkey, amount: u64) -> TokenAccount {
    TokenAccount {
        key: key(fill),
        mint: mint.key,
        owner: *owner,
        amount,
        lamports: 2_039_280,
        initialized: true,
    }
}

/// The standard scene: a signing maker, a mint, an empty campaign record,
/// and a custody record owned by the campaign address.
fn setup_fundraiser() -> (Account, Mint, Account, TokenAccount) {
    let maker = wallet(0x01, true);
    let mint = Mint { key: key(0x03), decimals: 6 };
    let fundraiser = empty_record(0x10);
    let vault = token_account(0x04, &mint, &fundraiser.key, 0);
    (maker, mint, fundraiser, vault)
}

fn open_campaign(
    maker: &mut Account,
    mint: &Mint,
    fundraiser: &mut Account,
    vault: &TokenAccount,
    amount: u64,
    duration: u8,
    now: i64,
) -> Result<(), FundraiserError> {
    let data = InitializeIxData { amount, duration, bump: 0xfe }.encode();
    process_initialize(maker, mint, fundraiser, vault, RENT_FUNDRAISER, now, &data)
}

fn contribute(
    contributor: &mut Account,
    mint: &Mint,
    fundraiser: &mut Account,
    contributor_acc: &mut Account,
    contributor_ata: &mut TokenAccount,
    vault: &mut TokenAccount,
    amount: u64,
) -> Result<(), FundraiserError> {
    let data =
        ContributeIxData { amount, contributor_bump: 0xfd, fundraiser_bump: 0xfe }.encode();
    process_contribute(
        contributor,
        mint,
        fundraiser,
        contributor_acc,
        contributor_ata,
        vault,
        RENT_CONTRIBUTOR,
        &data,
    )
}

#[test]
fn test_initialize_fundraiser() {
    let (mut maker, mint, mut fundraiser, vault) = setup_fundraiser();
    let init_result =
        open_campaign(&mut maker, &mint, &mut fundraiser, &vault, 100_000_000, 1, 1_700_000_000);
    assert_eq!(init_result, Ok(()));
    assert_eq!(fundraiser.data.len(), FUNDRAISER_LEN);
    let state = Fundraiser::decode(&fundraiser.data).unwrap();
    assert!(state.is_initialized);
    assert_eq!(state.amount_to_raise, 100_000_000);
    assert_eq!(state.current_amount, 0);
    assert_eq!(state.duration, 1);
    assert_eq!(state.time_started, 1_700_000_000);
    assert_eq!(maker.lamports, 2 * LAMPORTS_PER_SOL - RENT_FUNDRAISER);
    assert_eq!(fundraiser.lamports, RENT_FUNDRAISER);
}

#[test]
fn test_contribute() {
    let (mut maker, mint, mut fundraiser, mut vault) = setup_fundraiser();
    let init_result =
        open_campaign(&mut maker, &mint, &mut fundraiser, &vault, 10_000_000, 1, 1_700_000_000);
    assert_eq!(init_result, Ok(()));

    let mut contributor = wallet(0x02, true);
    let mut contributor_acc = empty_record(0x20);
    let mut contributor_ata = token_account(0x05, &mint, &contributor.key, 1_000_000);
    let contribute_result = contribute(
        &mut contributor,
        &mint,
        &mut fundraiser,
        &mut contributor_acc,
        &mut contributor_ata,
        &mut vault,
        1_000_000,
    );
    assert_eq!(contribute_result, Ok(()));
    assert_eq!(vault.amount, 1_000_000);
    assert_eq!(contributor_ata.amount, 0);
    let rec = Contributor::decode(&contributor_acc.data).unwrap();
    assert!(rec.is_initialized);
    assert_eq!(rec.amount, 1_000_000);
    let state = Fundraiser::decode(&fundraiser.data).unwrap();
    assert_eq!(state.current_amount, 1_000_000);
}

#[test]
fn test_checker() {
    let (mut maker, mint, mut fundraiser, mut vault) = setup_fundraiser();
    let init_result =
        open_campaign(&mut maker, &mint, &mut fundraiser, &vault, 10_000_000, 1, 1_700_000_000);
    assert_eq!(init_result, Ok(()));

    // Ten distinct contributors deposit one unit-million each.
    for i in 0..10u8 {
        let mut contributor = wallet(0x30 + i, true);
        let mut contributor_acc = empty_record(0x50 + i);
        let mut contributor_ata = token_account(0x70 + i, &mint, &contributor.key, 1_000_000);
        let contribute_result = contribute(
            &mut contributor,
            &mint,
            &mut fundraiser,
            &mut contributor_acc,
            &mut contributor_ata,
            &mut vault,
            1_000_000,
        );
        assert_eq!(contribute_result, Ok(()));
    }
    let state = Fundraiser::decode(&fundraiser.data).unwrap();
    assert_eq!(state.current_amount, 10_000_000);
    assert_eq!(vault.amount, 10_000_000);

    // The tracked total equals the target exactly: the strict policy
    // refuses the payout.
    let mut maker_ata = token_account(0x06, &mint, &maker.key, 0);
    let checker_result = process_check_contribution(
        &mut maker,
        &mint,
        &mut fundraiser,
        &mut vault,
        &mut maker_ata,
    );
    assert_eq!(checker_result, Err(FundraiserError::TargetNotMet));
    assert_eq!(maker_ata.amount, 0);
    assert_eq!(vault.amount, 10_000_000);
}
