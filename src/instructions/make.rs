//! Making an escrow: the payload that describes it and the checks and
//! effects of the instruction.
use vstd::prelude::*;
use crate::bytes::{
    le_bytes, le_u64_at, lemma_arrays_equal, lemma_le_u64_round_trip, push_bytes, push_u64,
    read_array, read_u64, same_key, to_array,
};
use crate::error::{EscrowError, EscrowErrorCode};
use crate::states::{
    address_check, Escrow,
    EscrowType, TokenAccountState,
};

verus! {

/// The payload of a make instruction.
#[derive(Debug, Clone, Copy, PartialEq, Eq)]
pub struct MakeEscrowIx {
    pub escrow_type: EscrowType,
    pub token_a_amount: u64,
    /// Asset B asked for; for a Dutch auction, the start price.
    pub token_b_amount: u64,
    pub seed: [u8; 2],
    pub bump: u8,
    /// Lowest price of a Dutch auction.
    pub end_price: u64,
    /// How long a Dutch auction's price falls, in seconds.
    pub duration: u64,
}

impl MakeEscrowIx {
    /// Size of the encoded payload in bytes.
    pub const LEN: usize = 36;

    pub fn new(
        escrow_type: EscrowType,
        token_a_amount: u64,
        token_b_amount: u64,
        bump: u8,
        seed: [u8; 2],
    ) -> (r: Self)
        ensures
            r == (MakeEscrowIx {
                escrow_type,
                token_a_amount,
                token_b_amount,
                seed,
                bump,
                end_price: 0,
                duration: 0,
            }),
    {
        MakeEscrowIx {
            escrow_type,
            token_a_amount,
            token_b_amount,
            seed,
            bump,
            end_price: 0,
            duration: 0,
        }
    }

    /// The payload of a Dutch auction that runs from `start_time` to `end_time`.
    pub fn new_dutch_auction(
        token_a_amount: u64,
        start_price: u64,
        end_price: u64,
        start_time: u64,
        end_time: u64,
        bump: u8,
        seed: [u8; 2],
    ) -> (r: Self)
        requires
            start_time <= end_time,
        ensures
            r == (MakeEscrowIx {
                escrow_type: EscrowType::DutchAuction,
                token_a_amount,
                token_b_amount: start_price,
                seed,
                bump,
                end_price,
                duration: (end_time - start_time) as u64,
            }),
    {
        MakeEscrowIx {
            escrow_type: EscrowType::DutchAuction,
            token_a_amount,
            token_b_amount: start_price,
            seed,
            bump,
            end_price,
            duration: end_time - start_time,
        }
    }

    /// The encoded payload: the variant tag, then the fields in order,
    /// integers little-endian.
    pub open spec fn spec_pack(self) -> Seq<u8> {
        seq![self.escrow_type.spec_tag()] + le_bytes(self.token_a_amount) + le_bytes(
            self.token_b_amount,
        ) + self.seed@ + seq![self.bump] + le_bytes(self.end_price) + le_bytes(self.duration)
    }

    /// Whether `s` holds a payload: it is long enough and its tag is known.
    pub open spec fn decodable(s: Seq<u8>) -> bool {
        &&& s.len() >= 36
        &&& EscrowType::from_tag(s[0]) is Some
    }

    /// Whether `x` is the payload that the bytes `s` hold.
    pub open spec fn layout_holds(s: Seq<u8>, x: MakeEscrowIx) -> bool {
        &&& s.len() >= 36
        &&& EscrowType::from_tag(s[0]) == Some(x.escrow_type)
        &&& x.token_a_amount == le_u64_at(s, 1)
        &&& x.token_b_amount == le_u64_at(s, 9)
        &&& x.seed@ == s.subrange(17, 19)
        &&& x.bump == s[19]
        &&& x.end_price == le_u64_at(s, 20)
        &&& x.duration == le_u64_at(s, 28)
    }

    pub fn pack(&self) -> (r: [u8; 36])
        ensures
            r@ == self.spec_pack(),
    {
        let mut out: Vec<u8> = Vec::new();
        out.push(self.escrow_type.tag());
        push_u64(&mut out, self.token_a_amount);
        push_u64(&mut out, self.token_b_amount);
        push_bytes(&mut out, self.seed.as_slice());
        out.push(self.bump);
        push_u64(&mut out, self.end_price);
        push_u64(&mut out, self.duration);
        assert(out@ =~= self.spec_pack());
        to_array(&out)
    }

    /// Reads a payload; bytes beyond its width are ignored. Short input or
    /// an unknown tag is malformed data.
    pub fn unpack(data: &[u8]) -> (r: Result<MakeEscrowIx, EscrowError>)
        ensures
            r is Ok <==> MakeEscrowIx::decodable(data@),
            r matches Ok(x) ==> MakeEscrowIx::layout_holds(data@, x),
            r is Err ==> r == Err::<MakeEscrowIx, EscrowError>(
                EscrowError::InvalidInstructionData,
            ),
    {
        if data.len() < Self::LEN {
            return Err(EscrowError::InvalidInstructionData);
        }
        let escrow_type = EscrowType::try_from(data[0])?;
        Ok(MakeEscrowIx {
            escrow_type,
            token_a_amount: read_u64(data, 1),
            token_b_amount: read_u64(data, 9),
            seed: read_array(data, 17),
            bump: data[19],
            end_price: read_u64(data, 20),
            duration: read_u64(data, 28),
        })
    }

    /// Decoding an encoded payload gives it back.
    pub proof fn lemma_round_trip(self, d: MakeEscrowIx)
        ensures
            self.spec_pack().len() == MakeEscrowIx::LEN,
            MakeEscrowIx::decodable(self.spec_pack()),
            MakeEscrowIx::layout_holds(self.spec_pack(), self),
            MakeEscrowIx::layout_holds(self.spec_pack(), d) ==> d == self,
    {
        let s = self.spec_pack();
        lemma_le_u64_round_trip(self.token_a_amount);
        lemma_le_u64_round_trip(self.token_b_amount);
        lemma_le_u64_round_trip(self.end_price);
        lemma_le_u64_round_trip(self.duration);
        assert(s[0] == self.escrow_type.spec_tag());
        assert(s.subrange(1, 9) =~= le_bytes(self.token_a_amount));
        assert(s.subrange(9, 17) =~= le_bytes(self.token_b_amount));
        assert(s.subrange(17, 19) =~= self.seed@);
        assert(s[19] == self.bump);
        assert(s.subrange(20, 28) =~= le_bytes(self.end_price));
        assert(s.subrange(28, 36) =~= le_bytes(self.duration));
        self.escrow_type.lemma_tag_round_trip();
        if MakeEscrowIx::layout_holds(s, d) {
            lemma_arrays_equal(d.seed, self.seed);
        }
    }
}

/// What the host reports about the accounts of a make instruction.
#[derive(Debug, Clone, Copy, PartialEq, Eq)]
pub struct MakeAccounts {
    pub maker: [u8; 32],
    /// Whether the maker signed the transaction.
    pub maker_is_signer: bool,
    /// Whether the maker's asset-A holding account has no data.
    pub maker_token_a_is_empty: bool,
    /// The maker's asset-A holding account read as a token account; `None`
    /// where the asset program does not hold it in that form.
    pub maker_token_a: Option<TokenAccountState>,
    /// The address at which the record is to be stored.
    pub escrow: [u8; 32],
    /// Whether that slot is still free.
    pub escrow_is_empty: bool,
    pub mint_a: [u8; 32],
    /// The program that owns the asset-A descriptor.
    pub mint_a_owner: [u8; 32],
    pub mint_b: [u8; 32],
    /// The program that owns the asset-B descriptor.
    pub mint_b_owner: [u8; 32],
    /// The asset-management program that both descriptors must belong to.
    pub token_program: [u8; 32],
}

/// What a make instruction asks the host to do.
#[derive(Debug, Clone, Copy, PartialEq, Eq)]
pub struct MakeEffects {
    /// The record to store at the escrow's address.
    pub record: Escrow,
    /// Bytes to allocate for it.
    pub space: u64,
    /// Asset A to move from the maker's holding account into the vault.
    pub deposit: u64,
}

/// The first account check of a make instruction that fails, if any, in
/// the order in which they are made.
pub open spec fn make_account_error(acc: MakeAccounts) -> Option<EscrowError> {
    if !acc.maker_is_signer {
        Some(EscrowError::Escrow(EscrowErrorCode::InvalidMaker))
    } else if !acc.escrow_is_empty {
        Some(EscrowError::Escrow(EscrowErrorCode::EscrowAlreadyExists))
    } else if acc.mint_a_owner@ != acc.token_program@ || acc.mint_b_owner@ != acc.token_program@ {
        Some(EscrowError::Escrow(EscrowErrorCode::InvalidTokenOwner))
    } else if acc.maker_token_a_is_empty {
        Some(EscrowError::Escrow(EscrowErrorCode::InvalidMakerTokenAccount))
    } else {
        match acc.maker_token_a {
            None => Some(EscrowError::InvalidAccountData),
            Some(t) => if t.owner@ != acc.maker@ {
                Some(EscrowError::Escrow(EscrowErrorCode::InvalidTokenOwner))
            } else {
                None
            },
        }
    }
}

/// The outcome of a make instruction whose accounts passed their checks,
/// given its payload and the derivation of the record's address: the
/// address must match, and a Dutch auction's end time must fit in 64 bits.
pub open spec fn make_outcome(
    acc: MakeAccounts,
    ix: MakeEscrowIx,
    derived: Option<[u8; 32]>,
    now: u64,
) -> Result<MakeEffects, EscrowError> {
    match address_check(acc.escrow, derived) {
        Err(e) => Err(e),
        Ok(_) => if ix.escrow_type == EscrowType::DutchAuction && now + ix.duration > u64::MAX {
            Err(EscrowError::ArithmeticOverflow)
        } else {
            let dutch = ix.escrow_type == EscrowType::DutchAuction;
            Ok(
                MakeEffects {
                    record: Escrow::spec_initialize(
                        ix,
                        ix.seed,
                        acc.mint_a,
                        acc.mint_b,
                        acc.maker,
                        if dutch { now } else { 0 },
                        if dutch { (now + ix.duration) as u64 } else { 0 },
                    ),
                    space: Escrow::LEN as u64,
                    deposit: ix.token_a_amount,
                },
            )
        },
    }
}

/// Runs the account checks of a make instruction, failing fast.
pub fn check_make_accounts(acc: &MakeAccounts) -> (r: Result<(), EscrowError>)
    ensures
        r == match make_account_error(*acc) {
            Some(e) => Err(e),
            None => Ok::<(), EscrowError>(()),
        },
{
    if !acc.maker_is_signer {
        return Err(EscrowError::Escrow(EscrowErrorCode::InvalidMaker));
    }
    if !acc.escrow_is_empty {
        return Err(EscrowError::Escrow(EscrowErrorCode::EscrowAlreadyExists));
    }
    if !same_key(&acc.mint_a_owner, &acc.token_program) || !same_key(
        &acc.mint_b_owner,
        &acc.token_program,
    ) {
        return Err(EscrowError::Escrow(EscrowErrorCode::InvalidTokenOwner));
    }
    if acc.maker_token_a_is_empty {
        return Err(EscrowError::Escrow(EscrowErrorCode::InvalidMakerTokenAccount));
    }
    match &acc.maker_token_a {
        None => Err(EscrowError::InvalidAccountData),
        Some(t) => if !same_key(&t.owner, &acc.maker) {
            Err(EscrowError::Escrow(EscrowErrorCode::InvalidTokenOwner))
        } else {
            Ok(())
        },
    }
}

/// Decides a make instruction whose accounts passed their checks, given
/// its payload, the derivation of the record's address and the time.
pub fn plan_make(
    acc: &MakeAccounts,
    ix: &MakeEscrowIx,
    derived: Option<[u8; 32]>,
    now: u64,
) -> (r: Result<MakeEffects, EscrowError>)
    ensures
        r == make_outcome(*acc, *ix, derived, now),
{
    Escrow::validate_escrow_pda(&acc.escrow, derived)?;
    let (start_time, end_time) = if ix.escrow_type == EscrowType::DutchAuction {
        match now.checked_add(ix.duration) {
            Some(end) => (now, end),
            None => return Err(EscrowError::ArithmeticOverflow),
        }
    } else {
        (0, 0)
    };
    let record = Escrow::initialize(
        ix,
        ix.seed,
        acc.mint_a,
        acc.mint_b,
        acc.maker,
        start_time,
        end_time,
    );
    Ok(MakeEffects { record, space: Escrow::LEN as u64, deposit: ix.token_a_amount })
}

/// Decides a make instruction: checks the accounts, decodes the payload,
/// checks the record's address and, where all is well, describes the
/// record to store and the deposit to move.
///
/// `derived` is the host's derivation of the escrow address from the
/// maker and the payload's seed and bump (see `escrow_seeds`); `now` is the
/// host's clock, which only a Dutch auction reads.
pub fn make_escrow(acc: &MakeAccounts, data: &[u8], derived: Option<[u8; 32]>, now: u64) -> (r:
    Result<
    MakeEffects,
    EscrowError,
>)
    ensures
        make_account_error(*acc) matches Some(e) ==> r == Err::<MakeEffects, EscrowError>(e),
        make_account_error(*acc) is None && !MakeEscrowIx::decodable(data@) ==> r == Err::<
            MakeEffects,
            EscrowError,
        >(EscrowError::InvalidInstructionData),
        forall|ix: MakeEscrowIx|
            make_account_error(*acc) is None && #[trigger] MakeEscrowIx::layout_holds(data@, ix)
                ==> r == make_outcome(*acc, ix, derived, now),
{
    check_make_accounts(acc)?;
    let ix = MakeEscrowIx::unpack(data)?;
    proof {
        assert forall|d: MakeEscrowIx| #[trigger]
            MakeEscrowIx::layout_holds(data@, d) implies d == ix by {
            lemma_layout_determines(data@, d, ix);
        }
    }
    plan_make(acc, &ix, derived, now)
}

/// The bytes of a payload determine it.
proof fn lemma_layout_determines(s: Seq<u8>, x: MakeEscrowIx, y: MakeEscrowIx)
    requires
        MakeEscrowIx::layout_holds(s, x),
        MakeEscrowIx::layout_holds(s, y),
    ensures
        x == y,
{
    lemma_arrays_equal(x.seed, y.seed);
}

} // verus!
