//! The escrow rules on chosen values: codecs, prices, fills, settlement,
//! dispatch and every error the handlers report.
use escrow_suite::error::{EscrowError, EscrowErrorCode};
use escrow_suite::instructions::{
    check_make_accounts, make_escrow, plan_make, plan_take, route, take_escrow, InstructionKind,
    MakeAccounts, MakeEscrowIx, TakeAccounts, TakeEscrowIx,
};
use escrow_suite::program_id;
use escrow_suite::states::{Escrow, EscrowType, TokenAccountState};

const MAKER: [u8; 32] = [1; 32];
const TAKER: [u8; 32] = [2; 32];
const MINT_A: [u8; 32] = [3; 32];
const MINT_B: [u8; 32] = [4; 32];
const ESCROW: [u8; 32] = [5; 32];
const TOKEN_PROGRAM: [u8; 32] = [7; 32];

fn token(mint: [u8; 32], owner: [u8; 32], amount: u64) -> TokenAccountState {
    TokenAccountState { mint, owner, amount }
}

fn make_accounts() -> MakeAccounts {
    MakeAccounts {
        maker: MAKER,
        maker_is_signer: true,
        maker_token_a_is_empty: false,
        maker_token_a: Some(token(MINT_A, MAKER, 10000)),
        escrow: ESCROW,
        escrow_is_empty: true,
        mint_a: MINT_A,
        mint_a_owner: TOKEN_PROGRAM,
        mint_b: MINT_B,
        mint_b_owner: TOKEN_PROGRAM,
        token_program: TOKEN_PROGRAM,
    }
}

fn take_accounts(vault_a: u64, taker_a: u64, taker_b: u64) -> TakeAccounts {
    TakeAccounts {
        escrow: ESCROW,
        maker: MAKER,
        taker_is_signer: true,
        vault_token_a: Some(token(MINT_A, ESCROW, vault_a)),
        taker_token_a: Some(token(MINT_A, TAKER, taker_a)),
        taker_token_b: Some(token(MINT_B, TAKER, taker_b)),
    }
}

fn record(escrow_type: EscrowType, a: u64, b: u64) -> Escrow {
    Escrow::new(escrow_type, MAKER, [0, 0], MINT_A, a, MINT_B, b, 254)
}

fn dutch(start_price: u64, end_price: u64, start_time: u64, duration: u64) -> Escrow {
    let mut e = record(EscrowType::DutchAuction, 2000, start_price);
    e.start_price = start_price;
    e.end_price = end_price;
    e.start_time = start_time;
    e.duration = duration;
    e.end_time = start_time + duration;
    e
}

fn insufficient() -> EscrowError {
    EscrowError::Escrow(EscrowErrorCode::InsufficientFunds)
}

#[test]
fn make_payload_round_trips() {
    let ix = MakeEscrowIx {
        escrow_type: EscrowType::DutchAuction,
        token_a_amount: 0x0102030405060708,
        token_b_amount: u64::MAX,
        seed: [0xab, 0xcd],
        bump: 253,
        end_price: 5000,
        duration: 3600,
    };
    let bytes = ix.pack();
    assert_eq!(bytes.len(), MakeEscrowIx::LEN);
    assert_eq!(bytes[0], 2);
    assert_eq!(&bytes[1..9], &[8, 7, 6, 5, 4, 3, 2, 1]);
    assert_eq!(&bytes[9..17], &[0xff; 8]);
    assert_eq!(&bytes[17..20], &[0xab, 0xcd, 253]);
    assert_eq!(&bytes[20..28], &5000u64.to_le_bytes());
    assert_eq!(&bytes[28..36], &3600u64.to_le_bytes());
    assert_eq!(MakeEscrowIx::unpack(&bytes), Ok(ix));
    let mut longer = bytes.to_vec();
    longer.push(9);
    assert_eq!(MakeEscrowIx::unpack(&longer), Ok(ix));
}

#[test]
fn take_payload_round_trips() {
    let ix = TakeEscrowIx::new(EscrowType::Partial, 750, 1);
    let bytes = ix.pack();
    assert_eq!(bytes.len(), TakeEscrowIx::LEN);
    assert_eq!(bytes[0], 1);
    assert_eq!(&bytes[1..9], &750u64.to_le_bytes());
    assert_eq!(TakeEscrowIx::unpack(&bytes), Ok(ix));
}

#[test]
fn record_round_trips() {
    let e = dutch(10000, 5000, 1_700_000_000, 3600);
    let bytes = e.pack();
    assert_eq!(bytes.len(), Escrow::LEN);
    assert_eq!(&bytes[0..32], &MAKER);
    assert_eq!(bytes[34], 2);
    assert_eq!(&bytes[72..80], &2000u64.to_le_bytes());
    assert_eq!(bytes[120], 254);
    assert_eq!(&bytes[160..168], &1_700_003_600u64.to_le_bytes());
    assert_eq!(Escrow::unpack(&bytes), Ok(e));
}

#[test]
fn malformed_payloads_are_rejected() {
    let make = MakeEscrowIx::new(EscrowType::Simple, 1, 2, 3, [4, 5]).pack();
    assert_eq!(MakeEscrowIx::unpack(&make[..35]), Err(EscrowError::InvalidInstructionData));
    assert_eq!(MakeEscrowIx::unpack(&[]), Err(EscrowError::InvalidInstructionData));
    let mut bad_tag = make;
    bad_tag[0] = 4;
    assert_eq!(MakeEscrowIx::unpack(&bad_tag), Err(EscrowError::InvalidInstructionData));
    let take = TakeEscrowIx::new(EscrowType::DutchAuction, 1, 2).pack();
    assert_eq!(TakeEscrowIx::unpack(&take[..16]), Err(EscrowError::InvalidInstructionData));
    let mut longer = take.to_vec();
    longer.push(0);
    assert_eq!(TakeEscrowIx::unpack(&longer), Err(EscrowError::InvalidInstructionData));
    let record_bytes = record(EscrowType::Simple, 1, 2).pack();
    assert_eq!(Escrow::unpack(&record_bytes[..167]), Err(EscrowError::InvalidAccountData));
    let mut bad_record = record_bytes;
    bad_record[34] = 7;
    assert_eq!(Escrow::unpack(&bad_record), Err(EscrowError::InvalidAccountData));
}

#[test]
fn unknown_tags_are_rejected() {
    assert_eq!(route(&[]), Err(EscrowError::InvalidInstructionData));
    assert_eq!(route(&[0]), Err(EscrowError::InvalidInstructionData));
    assert_eq!(route(&[3, 1, 2]), Err(EscrowError::InvalidInstructionData));
    assert_eq!(route(&[0xff]), Err(EscrowError::InvalidInstructionData));
    assert_eq!(route(&[1]), Ok(InstructionKind::Make));
    assert_eq!(route(&[2]), Ok(InstructionKind::Take));
    // A short make payload is refused once the accounts pass their checks.
    assert_eq!(make_escrow(&make_accounts(), &[0; 35], Some(ESCROW), 0), Err(EscrowError::InvalidInstructionData));
}

#[test]
fn escrow_type_tags() {
    assert_eq!(EscrowType::try_from(0), Ok(EscrowType::Simple));
    assert_eq!(EscrowType::try_from(1), Ok(EscrowType::Partial));
    assert_eq!(EscrowType::try_from(2), Ok(EscrowType::DutchAuction));
    assert_eq!(EscrowType::try_from(3), Ok(EscrowType::Oracle));
    assert_eq!(EscrowType::try_from(4), Err(EscrowError::InvalidInstructionData));
    assert_eq!(EscrowType::Oracle.tag(), 3);
}

#[test]
fn error_codes_follow_declaration_order() {
    assert_eq!(EscrowErrorCode::InvalidMaker.code(), 0);
    assert_eq!(EscrowErrorCode::PdaMismatch.code(), 3);
    assert_eq!(EscrowErrorCode::InvalidTokenMint.code(), 6);
    assert_eq!(EscrowErrorCode::InsufficientFunds.code(), 9);
}

#[test]
fn dutch_price_boundaries_and_midpoints() {
    let e = dutch(10000, 5000, 0, 3600);
    assert_eq!(e.calculate_dutch_price(0), 10000);
    assert_eq!(e.calculate_dutch_price(3600), 5000);
    assert_eq!(e.calculate_dutch_price(1800), 7500);
    assert_eq!(e.calculate_dutch_price(900), 8750);
    assert_eq!(e.calculate_dutch_price(5000), 5000);
    let mut last = e.calculate_dutch_price(0);
    for t in 1..=3700u64 {
        let p = e.calculate_dutch_price(t);
        assert!(p <= last);
        last = p;
    }
}

#[test]
fn dutch_price_rounds_down_and_counts_from_start() {
    let e = dutch(10000, 5000, 1000, 3600);
    assert_eq!(e.calculate_dutch_price(999), 10000);
    assert_eq!(e.calculate_dutch_price(1001), 9999);
    assert_eq!(e.get_required_token_b_amount(2800), 7500);
}

#[test]
fn reversed_dutch_auction_rises() {
    let e = dutch(5000, 10000, 0, 3600);
    assert_eq!(e.calculate_dutch_price(0), 5000);
    assert_eq!(e.calculate_dutch_price(1), 5002);
    assert_eq!(e.calculate_dutch_price(1800), 7500);
    assert_eq!(e.calculate_dutch_price(3600), 10000);
}

#[test]
fn fixed_terms_ignore_the_clock() {
    let e = record(EscrowType::Simple, 5000, 10000);
    assert_eq!(e.calculate_dutch_price(123), 10000);
    assert_eq!(e.get_required_token_b_amount(123), 10000);
    assert_eq!(e.simple_dutch_price(123, 7, 1), 10000);
}

#[test]
fn linear_decay_price() {
    let e = dutch(10000, 5000, 100, 3600);
    assert_eq!(e.simple_dutch_price(100, 2, 6000), 10000);
    assert_eq!(e.simple_dutch_price(1100, 2, 6000), 8000);
    assert_eq!(e.simple_dutch_price(5100, 2, 6000), 6000);
    assert_eq!(e.simple_dutch_price(u64::MAX, u64::MAX, 0), 0);
}

#[test]
fn new_and_initialize_set_auction_fields_for_auctions_only() {
    let ix = MakeEscrowIx::new_dutch_auction(2000, 10000, 5000, 100, 3700, 254, [0, 1]);
    assert_eq!(ix.duration, 3600);
    assert_eq!(ix.token_b_amount, 10000);
    let e = Escrow::initialize(&ix, [0, 1], MINT_A, MINT_B, MAKER, 50, 3650);
    assert_eq!((e.start_price, e.end_price, e.start_time, e.duration, e.end_time), (10000, 5000, 50, 3600, 3650));
    let plain = MakeEscrowIx { escrow_type: EscrowType::Simple, ..ix };
    let e = Escrow::initialize(&plain, [0, 1], MINT_A, MINT_B, MAKER, 50, 3650);
    assert_eq!((e.start_price, e.end_price, e.start_time, e.duration, e.end_time), (0, 0, 0, 0, 0));
    assert_eq!(e.token_b_amount, 10000);
}

#[test]
fn make_sets_auction_times_from_the_clock() {
    let ix = MakeEscrowIx::new_dutch_auction(2000, 10000, 5000, 0, 3600, 254, [0, 0]);
    let fx = plan_make(&make_accounts(), &ix, Some(ESCROW), 1_000_000).unwrap();
    assert_eq!(fx.deposit, 2000);
    assert_eq!(fx.space, 168);
    assert_eq!(fx.record.start_time, 1_000_000);
    assert_eq!(fx.record.end_time, 1_003_600);
    assert_eq!(fx.record.maker_pubkey, MAKER);
    let too_long = MakeEscrowIx { duration: u64::MAX, ..ix };
    assert_eq!(plan_make(&make_accounts(), &too_long, Some(ESCROW), 1), Err(EscrowError::ArithmeticOverflow));
    let simple = MakeEscrowIx { escrow_type: EscrowType::Simple, ..too_long };
    assert!(plan_make(&make_accounts(), &simple, Some(ESCROW), 1).is_ok());
}

#[test]
fn make_account_errors_in_order() {
    let code = |c| Err(EscrowError::Escrow(c));
    let mut acc = make_accounts();
    assert_eq!(check_make_accounts(&acc), Ok(()));
    acc.maker_token_a = Some(token(MINT_A, TAKER, 10000));
    assert_eq!(check_make_accounts(&acc), code(EscrowErrorCode::InvalidTokenOwner));
    acc.maker_token_a = None;
    assert_eq!(check_make_accounts(&acc), Err(EscrowError::InvalidAccountData));
    acc.maker_token_a_is_empty = true;
    assert_eq!(check_make_accounts(&acc), code(EscrowErrorCode::InvalidMakerTokenAccount));
    acc.mint_b_owner = MAKER;
    assert_eq!(check_make_accounts(&acc), code(EscrowErrorCode::InvalidTokenOwner));
    acc.escrow_is_empty = false;
    assert_eq!(check_make_accounts(&acc), code(EscrowErrorCode::EscrowAlreadyExists));
    acc.maker_is_signer = false;
    assert_eq!(check_make_accounts(&acc), code(EscrowErrorCode::InvalidMaker));
    assert_eq!(make_escrow(&acc, &[0; 36], Some(ESCROW), 0), Err(EscrowError::Escrow(EscrowErrorCode::InvalidMaker)));
}

#[test]
fn address_check_outcomes() {
    assert_eq!(Escrow::validate_escrow_pda(&ESCROW, Some(ESCROW)), Ok(()));
    assert_eq!(Escrow::validate_escrow_pda(&ESCROW, Some(MAKER)), Err(EscrowError::Escrow(EscrowErrorCode::PdaMismatch)));
    assert_eq!(Escrow::validate_escrow_pda(&ESCROW, None), Err(EscrowError::InvalidSeeds));
    let ix = MakeEscrowIx::new(EscrowType::Simple, 1, 2, 254, [0, 0]);
    assert_eq!(plan_make(&make_accounts(), &ix, Some(MAKER), 0), Err(EscrowError::Escrow(EscrowErrorCode::PdaMismatch)));
}

#[test]
fn program_id_decodes_from_base58() {
    let expected: [u8; 32] = [
        5, 106, 116, 132, 204, 108, 233, 168, 176, 58, 2, 123, 151, 163, 114, 179, 237, 209, 255,
        90, 48, 105, 152, 6, 88, 230, 49, 4, 65, 151, 218, 255,
    ];
    assert_eq!(program_id(), expected);
}

#[test]
fn simple_settlement_is_exact() {
    let rec = record(EscrowType::Simple, 5000, 10000);
    let fx = plan_take(&take_accounts(5000, 0, 10000), &rec, Some(ESCROW), &[], 0).unwrap();
    assert_eq!(fx.release_a, 5000);
    assert_eq!(fx.payment_b, 10000);
    assert_eq!(fx.record, rec);
    // vault 5000 -> 0, taker 0 A -> 5000 A, 10000 B -> 0 B, maker 0 B -> 10000 B
    assert_eq!(5000 - fx.release_a, 0);
    assert_eq!(0 + fx.release_a, 5000);
    assert_eq!(10000 - fx.payment_b, 0);
    assert_eq!(0 + fx.payment_b, 10000);
    assert_eq!(plan_take(&take_accounts(4999, 0, 10000), &rec, Some(ESCROW), &[], 0), Err(insufficient()));
    assert_eq!(plan_take(&take_accounts(5000, 0, 9999), &rec, Some(ESCROW), &[], 0), Err(insufficient()));
}

#[test]
fn partial_fill_truncates_twice() {
    let rec = record(EscrowType::Partial, 3000, 1000);
    let ix = TakeEscrowIx::new(EscrowType::Partial, 1, 0).pack();
    let fx = plan_take(&take_accounts(3000, 0, 10000), &rec, Some(ESCROW), &ix, 0).unwrap();
    // 1 * 10000 / 3000 = 3 basis points; 1000 * 3 / 10000 = 0
    assert_eq!(fx.payment_b, 0);
    assert_eq!(fx.release_a, 1);
    assert_eq!((fx.record.token_a_amount, fx.record.token_b_amount), (2999, 1000));
    let all = TakeEscrowIx::new(EscrowType::Partial, 3000, 0).pack();
    let fx = plan_take(&take_accounts(3000, 0, 10000), &rec, Some(ESCROW), &all, 0).unwrap();
    assert_eq!((fx.payment_b, fx.record.token_a_amount, fx.record.token_b_amount), (1000, 0, 0));
    let big = record(EscrowType::Partial, u64::MAX, u64::MAX);
    let half = TakeEscrowIx::new(EscrowType::Partial, u64::MAX / 2, 0).pack();
    let fx = plan_take(&take_accounts(u64::MAX, 0, u64::MAX), &big, Some(ESCROW), &half, 0).unwrap();
    assert_eq!(fx.payment_b, (u64::MAX as u128 * 4999 / 10000) as u64);
}

#[test]
fn exhausted_partial_escrow_refuses_further_fills() {
    let rec = record(EscrowType::Partial, 0, 0);
    let ix = TakeEscrowIx::new(EscrowType::Partial, 0, 0).pack();
    assert_eq!(plan_take(&take_accounts(0, 0, 0), &rec, Some(ESCROW), &ix, 0), Err(insufficient()));
}

#[test]
fn insufficient_takes_change_nothing() {
    let acc = take_accounts(5000, 10000, 10000);
    let partial = record(EscrowType::Partial, 5000, 10000);
    let too_much = TakeEscrowIx::new(EscrowType::Partial, 5001, 0).pack();
    assert_eq!(plan_take(&acc, &partial, Some(ESCROW), &too_much, 0), Err(insufficient()));
    let auction = dutch(10000, 5000, 0, 3600);
    let underpaid = TakeEscrowIx::new(EscrowType::DutchAuction, 2000, 8749).pack();
    assert_eq!(plan_take(&acc, &auction, Some(ESCROW), &underpaid, 900), Err(insufficient()));
    let exact = TakeEscrowIx::new(EscrowType::DutchAuction, 2000, 9000).pack();
    let fx = plan_take(&acc, &auction, Some(ESCROW), &exact, 900).unwrap();
    assert_eq!((fx.release_a, fx.payment_b), (2000, 8750));
    assert_eq!(fx.record, auction);
}

#[test]
fn dutch_take_checks_the_takers_own_asset_a() {
    let auction = dutch(10000, 5000, 0, 3600);
    let ix = TakeEscrowIx::new(EscrowType::DutchAuction, 2000, 10000).pack();
    assert_eq!(plan_take(&take_accounts(5000, 1999, 10000), &auction, Some(ESCROW), &ix, 0), Err(insufficient()));
    assert!(plan_take(&take_accounts(5000, 2000, 10000), &auction, Some(ESCROW), &ix, 0).is_ok());
}

#[test]
fn take_errors() {
    let rec = record(EscrowType::Simple, 5000, 10000);
    let code = |c| Err(EscrowError::Escrow(c));
    let acc = take_accounts(5000, 0, 10000);
    assert_eq!(plan_take(&acc, &rec, Some(MAKER), &[], 0), code(EscrowErrorCode::PdaMismatch));
    assert_eq!(plan_take(&acc, &rec, None, &[], 0), Err(EscrowError::InvalidSeeds));
    let other_maker = TakeAccounts { maker: TAKER, ..acc };
    assert_eq!(plan_take(&other_maker, &rec, Some(ESCROW), &[], 0), code(EscrowErrorCode::PdaMismatch));
    let unsigned = TakeAccounts { taker_is_signer: false, ..acc };
    assert_eq!(plan_take(&unsigned, &rec, Some(ESCROW), &[], 0), code(EscrowErrorCode::InvalidMaker));
    let wrong_mint = TakeAccounts { taker_token_b: Some(token(MINT_A, TAKER, 10000)), ..acc };
    assert_eq!(plan_take(&wrong_mint, &rec, Some(ESCROW), &[], 0), code(EscrowErrorCode::InvalidTokenMint));
    let unreadable = TakeAccounts { taker_token_a: None, ..acc };
    assert_eq!(plan_take(&unreadable, &rec, Some(ESCROW), &[], 0), Err(EscrowError::InvalidAccountData));
    let no_vault = TakeAccounts { vault_token_a: None, ..acc };
    assert_eq!(plan_take(&no_vault, &rec, Some(ESCROW), &[], 0), Err(EscrowError::InvalidAccountData));
    let oracle = record(EscrowType::Oracle, 5000, 10000);
    assert_eq!(plan_take(&acc, &oracle, Some(ESCROW), &[], 0), code(EscrowErrorCode::InvalidEscrowType));
    let partial = record(EscrowType::Partial, 5000, 10000);
    assert_eq!(plan_take(&acc, &partial, Some(ESCROW), &[], 0), Err(EscrowError::InvalidInstructionData));
}

#[test]
fn make_escrow_describes_record_and_deposit() {
    let ix = MakeEscrowIx::new_dutch_auction(2000, 10000, 5000, 0, 3600, 254, [9, 8]);
    let fx = make_escrow(&make_accounts(), &ix.pack(), Some(ESCROW), 500).unwrap();
    assert_eq!(fx.deposit, 2000);
    assert_eq!(fx.space, Escrow::LEN as u64);
    assert_eq!(fx.record.seed, [9, 8]);
    assert_eq!(fx.record.bump, 254);
    assert_eq!((fx.record.start_time, fx.record.end_time), (500, 4100));
    assert_eq!((fx.record.start_price, fx.record.end_price), (10000, 5000));
    assert_eq!(
        make_escrow(&make_accounts(), &ix.pack(), Some(MAKER), 500),
        Err(EscrowError::Escrow(EscrowErrorCode::PdaMismatch))
    );
    assert_eq!(make_escrow(&make_accounts(), &ix.pack(), None, 500), Err(EscrowError::InvalidSeeds));
}

#[test]
fn take_escrow_rewrites_remaining_amounts_in_place() {
    let rec = record(EscrowType::Partial, 5000, 10000);
    let mut stored = rec.pack().to_vec();
    stored.extend_from_slice(&[0xee; 4]);
    let before = stored.clone();
    let ix = TakeEscrowIx::new(EscrowType::Partial, 2000, 0).pack();
    let acc = take_accounts(5000, 0, 10000);
    let fx = take_escrow(&acc, &mut stored, &ix, Some(ESCROW), 0).unwrap();
    assert_eq!((fx.release_a, fx.payment_b), (2000, 4000));
    assert_eq!(&stored[72..80], &3000u64.to_le_bytes());
    assert_eq!(&stored[112..120], &6000u64.to_le_bytes());
    assert_eq!(&stored[..72], &before[..72]);
    assert_eq!(&stored[80..112], &before[80..112]);
    assert_eq!(&stored[120..], &before[120..]);
    assert_eq!(Escrow::unpack(&stored), Ok(fx.record));
}

#[test]
fn take_escrow_leaves_bytes_alone_otherwise() {
    let simple = record(EscrowType::Simple, 5000, 10000);
    let mut stored = simple.pack().to_vec();
    let fx = take_escrow(&take_accounts(5000, 0, 10000), &mut stored, &[], Some(ESCROW), 0).unwrap();
    assert_eq!((fx.release_a, fx.payment_b), (5000, 10000));
    assert_eq!(stored, simple.pack().to_vec());
    let partial = record(EscrowType::Partial, 5000, 10000);
    let mut stored = partial.pack().to_vec();
    let too_much = TakeEscrowIx::new(EscrowType::Partial, 5001, 0).pack();
    let acc = take_accounts(5000, 0, 10000);
    assert_eq!(take_escrow(&acc, &mut stored, &too_much, Some(ESCROW), 0), Err(insufficient()));
    assert_eq!(stored, partial.pack().to_vec());
    assert_eq!(take_escrow(&acc, &mut stored, &too_much, Some(MAKER), 0), Err(EscrowError::Escrow(EscrowErrorCode::PdaMismatch)));
    assert_eq!(take_escrow(&acc, &mut vec![0; 10], &too_much, Some(ESCROW), 0), Err(EscrowError::InvalidAccountData));
}
