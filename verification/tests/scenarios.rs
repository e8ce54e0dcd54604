use fundraiser::error::FundraiserError;
use fundraiser::instruction::initialize::InitializeIxData;
use fundraiser::instruction::contribute::ContributeIxData;
use fundraiser::instruction::{
    process_check_contribution, process_contribute, process_initialize, process_refund,
};
use fundraiser::ledger::{Account, Mint, TokenAccount};
use fundraiser::pubkey::Pubkey;
use fundraiser::state::Fundraiser;

const RENT_FUNDRAISER: u64 = 1_523_520;
const RENT_CONTRIBUTOR: u64 = 953_520;
const LAMPORTS_PER_SOL: u64 = 1_000_000_000;
const OPENED_AT: i64 = 1_700_000_000;
const SECONDS_PER_DAY: i64 = 86_400;

fn key(fill: u8) -> Pubkey {
    Pubkey::new([fill; 32])
}

fn wallet(fill: u8, signer: bool) -> Account {
    Account {
        key: key(fill),
        lamports: 2 * LAMPORTS_PER_SOL,
        owner: key(0),
        data: Vec::new(),
        is_signer: signer,
    }
}

fn empty_record(fill: u8) -> Account {
    Account { key: key(fill), lamports: 0, owner: key(0), data: Vec::new(), is_signer: false }
}

fn token_account(fill: u8, mint: &Mint, owner: &Pubkey, amount: u64) -> TokenAccount {
    TokenAccount {
        key: key(fill),
        mint: mint.key,
        owner: *owner,
        amount,
        lamports: 2_039_280,
        initialized: true,
    }
}

fn setup_fundraiser() -> (Account, Mint, Account, TokenAccount) {
    let maker = wallet(0x01, true);
    let mint = Mint { key: key(0x03), decimals: 6 };
    let fundraiser = empty_record(0x10);
    let vault = token_account(0x04, &mint, &fundraiser.key, 0);
    (maker, mint, fundraiser, vault)
}

fn open_campaign(
    maker: &mut Account,
    mint: &Mint,
    fundraiser: &mut Account,
    vault: &TokenAccount,
    amount: u64,
    duration: u8,
) -> Result<(), FundraiserError> {
    let data = InitializeIxData { amount, duration, bump: 0xfe }.encode();
    process_initialize(maker, mint, fundraiser, vault, RENT_FUNDRAISER, OPENED_AT, &data)
}

fn contribute(
    contributor: &mut Account,
    mint: &Mint,
    fundraiser: &mut Account,
    contributor_acc: &mut Account,
    contributor_ata: &mut TokenAccount,
    vault: &mut TokenAccount,
    amount: u64,
) -> Result<(), FundraiserError> {
    let data =
        ContributeIxData { amount, contributor_bump: 0xfd, fundraiser_bump: 0xfe }.encode();
    process_contribute(
        contributor,
        mint,
        fundraiser,
        contributor_acc,
        contributor_ata,
        vault,
        RENT_CONTRIBUTOR,
        &data,
    )
}

/// Target exactly reached by ten equal contributions: the strict payout
/// policy refuses the claim.
#[test]
fn scenario_target_reached_exactly_fails_finalize() {
    let (mut maker, mint, mut fundraiser, mut vault) = setup_fundraiser();
    assert_eq!(open_campaign(&mut maker, &mint, &mut fundraiser, &vault, 10_000_000, 1), Ok(()));
    for i in 0..10u8 {
        let mut contributor = wallet(0x30 + i, true);
        let mut contributor_acc = empty_record(0x50 + i);
        let mut contributor_ata = token_account(0x70 + i, &mint, &contributor.key, 1_000_000);
        assert_eq!(
            contribute(
                &mut contributor,
                &mint,
                &mut fundraiser,
                &mut contributor_acc,
                &mut contributor_ata,
                &mut vault,
                1_000_000,
            ),
            Ok(())
        );
    }
    let state = Fundraiser::decode(&fundraiser.data).unwrap();
    assert_eq!(state.current_amount, 10_000_000);
    let mut maker_ata = token_account(0x06, &mint, &maker.key, 0);
    assert_eq!(
        process_check_contribution(&mut maker, &mint, &mut fundraiser, &mut vault, &mut maker_ata),
        Err(FundraiserError::TargetNotMet)
    );
}

/// One unit beyond the target flips the payout policy: the claim succeeds,
/// the owner receives the whole pool, and the campaign and custody records
/// cease to exist, so every later operation against them fails.
#[test]
fn scenario_target_exceeded_finalize_pays_out_and_closes() {
    let (mut maker, mint, mut fundraiser, mut vault) = setup_fundraiser();
    assert_eq!(open_campaign(&mut maker, &mint, &mut fundraiser, &vault, 10_000_000, 1), Ok(()));
    for i in 0..10u8 {
        let mut contributor = wallet(0x30 + i, true);
        let mut contributor_acc = empty_record(0x50 + i);
        let mut contributor_ata = token_account(0x70 + i, &mint, &contributor.key, 1_000_000);
        assert_eq!(
            contribute(
                &mut contributor,
                &mint,
                &mut fundraiser,
                &mut contributor_acc,
                &mut contributor_ata,
                &mut vault,
                1_000_000,
            ),
            Ok(())
        );
    }
    // An eleventh contribution of a single unit pushes the tracked total
    // strictly past the target.
    let mut eleventh = wallet(0x3b, true);
    let mut eleventh_acc = empty_record(0x5b);
    let mut eleventh_ata = token_account(0x7b, &mint, &eleventh.key, 1);
    assert_eq!(
        contribute(
            &mut eleventh,
            &mint,
            &mut fundraiser,
            &mut eleventh_acc,
            &mut eleventh_ata,
            &mut vault,
            1,
        ),
        Ok(())
    );
    let state = Fundraiser::decode(&fundraiser.data).unwrap();
    assert_eq!(state.current_amount, 10_000_001);

    let maker_lamports_before = maker.lamports;
    let vault_lamports = vault.lamports;
    let fundraiser_lamports = fundraiser.lamports;
    let mut maker_ata = token_account(0x06, &mint, &maker.key, 0);
    assert_eq!(
        process_check_contribution(&mut maker, &mint, &mut fundraiser, &mut vault, &mut maker_ata),
        Ok(())
    );
    assert_eq!(maker_ata.amount, 10_000_001);
    assert_eq!(maker.lamports, maker_lamports_before + vault_lamports + fundraiser_lamports);
    assert_eq!(fundraiser.data.len(), 0);
    assert_eq!(fundraiser.lamports, 0);
    assert!(!vault.initialized);
    assert_eq!(vault.amount, 0);

    // The campaign is gone: a new contribution, a second claim, and a
    // refund all fail as against a record that never existed.
    let mut late = wallet(0x3c, true);
    let mut late_acc = empty_record(0x5c);
    let mut late_ata = token_account(0x7c, &mint, &late.key, 5);
    assert_eq!(
        contribute(
            &mut late,
            &mint,
            &mut fundraiser,
            &mut late_acc,
            &mut late_ata,
            &mut vault,
            5,
        ),
        Err(FundraiserError::UninitializedAccount)
    );
    assert_eq!(
        process_check_contribution(&mut maker, &mint, &mut fundraiser, &mut vault, &mut maker_ata),
        Err(FundraiserError::UninitializedAccount)
    );
    let now = OPENED_AT + 3 * SECONDS_PER_DAY;
    assert_eq!(
        process_refund(
            &mut late,
            &maker,
            &mint,
            &fundraiser,
            &mut late_acc,
            &mut late_ata,
            &mut vault,
            now,
        ),
        Err(FundraiserError::UninitializedAccount)
    );
}

/// A failed campaign pays its contributor back: after the deadline, with
/// the custody balance below the target, the refund returns the deposit
/// and the storage balance, closes the contribution record, and a replay
/// fails; the claim fails both before and after the refund.
#[test]
fn scenario_failed_campaign_refunds_contributor() {
    let (mut maker, mint, mut fundraiser, mut vault) = setup_fundraiser();
    assert_eq!(open_campaign(&mut maker, &mint, &mut fundraiser, &vault, 100_000_000, 1), Ok(()));
    // The campaign record must be owned by this program for a refund, and
    // the open operation records exactly that.
    assert_eq!(fundraiser.owner.bytes, fundraiser::program_id().bytes);

    let mut contributor = wallet(0x02, true);
    let mut contributor_acc = empty_record(0x20);
    let mut contributor_ata = token_account(0x05, &mint, &contributor.key, 1_000_000);
    assert_eq!(
        contribute(
            &mut contributor,
            &mint,
            &mut fundraiser,
            &mut contributor_acc,
            &mut contributor_ata,
            &mut vault,
            1_000_000,
        ),
        Ok(())
    );
    assert_eq!(contributor_ata.amount, 0);
    let record_lamports = contributor_acc.lamports;
    assert_eq!(record_lamports, RENT_CONTRIBUTOR);

    // The claim fails before the refund: the target was never met.
    let mut maker_ata = token_account(0x06, &mint, &maker.key, 0);
    assert_eq!(
        process_check_contribution(&mut maker, &mint, &mut fundraiser, &mut vault, &mut maker_ata),
        Err(FundraiserError::TargetNotMet)
    );

    // Two whole days later the one-day deadline has strictly passed.
    let now = OPENED_AT + 2 * SECONDS_PER_DAY;
    let lamports_before = contributor.lamports;
    assert_eq!(
        process_refund(
            &mut contributor,
            &maker,
            &mint,
            &fundraiser,
            &mut contributor_acc,
            &mut contributor_ata,
            &mut vault,
            now,
        ),
        Ok(())
    );
    assert_eq!(contributor_ata.amount, 1_000_000);
    assert_eq!(vault.amount, 0);
    assert_eq!(contributor.lamports, lamports_before + record_lamports);
    assert_eq!(contributor_acc.lamports, 0);
    assert_eq!(contributor_acc.data.len(), 0);

    // Replaying the refund fails: the contribution record is gone.
    assert_eq!(
        process_refund(
            &mut contributor,
            &maker,
            &mint,
            &fundraiser,
            &mut contributor_acc,
            &mut contributor_ata,
            &mut vault,
            now,
        ),
        Err(FundraiserError::UninitializedAccount)
    );

    // The claim still fails after the refund.
    assert_eq!(
        process_check_contribution(&mut maker, &mint, &mut fundraiser, &mut vault, &mut maker_ata),
        Err(FundraiserError::TargetNotMet)
    );
}

/// The tracked total always equals the pooled custody balance and the sum
/// of all live contribution records, across repeat and first-time
/// contributions alike.
#[test]
fn scenario_accounting_totals_match() {
    let (mut maker, mint, mut fundraiser, mut vault) = setup_fundraiser();
    assert_eq!(open_campaign(&mut maker, &mint, &mut fundraiser, &vault, 50_000_000, 3), Ok(()));

    let mut alice = wallet(0x41, true);
    let mut alice_acc = empty_record(0x61);
    let mut alice_ata = token_account(0x71, &mint, &alice.key, 9_000_000);
    let mut bob = wallet(0x42, true);
    let mut bob_acc = empty_record(0x62);
    let mut bob_ata = token_account(0x72, &mint, &bob.key, 9_000_000);

    for (who, amount) in [(0u8, 1_500_000u64), (1, 2_250_000), (0, 750_000), (1, 4_500_000)] {
        let (signer, acc, ata) = if who == 0 {
            (&mut alice, &mut alice_acc, &mut alice_ata)
        } else {
            (&mut bob, &mut bob_acc, &mut bob_ata)
        };
        assert_eq!(
            contribute(signer, &mint, &mut fundraiser, acc, ata, &mut vault, amount),
            Ok(())
        );
    }

    let alice_rec = fundraiser::state::Contributor::decode(&alice_acc.data).unwrap();
    let bob_rec = fundraiser::state::Contributor::decode(&bob_acc.data).unwrap();
    assert_eq!(alice_rec.amount, 2_250_000);
    assert_eq!(bob_rec.amount, 6_750_000);
    let state = Fundraiser::decode(&fundraiser.data).unwrap();
    assert_eq!(state.current_amount, alice_rec.amount + bob_rec.amount);
    assert_eq!(state.current_amount, vault.amount);
    assert_eq!(state.current_amount, 9_000_000);
}
