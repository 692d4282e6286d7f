//! Taking an escrow: the payload of a fill and the settlement of each
//! variant.
use vstd::prelude::*;
use crate::bytes::{
    le_bytes, le_u64_at, lemma_le_u64_round_trip, push_u64, read_u64, same_key, to_array,
    write_u64_at,
};
use crate::error::{EscrowError, EscrowErrorCode};
use crate::states::{
    address_check, Escrow,
    EscrowType, TokenAccountState, lemma_scaled_share_bounded,
};
use vstd::arithmetic::div_mod::{
    lemma_fundamental_div_mod, lemma_fundamental_div_mod_converse, lemma_mod_bound,
};

verus! {

/// The payload of a take instruction, for partial and Dutch-auction escrows.
#[derive(Debug, Clone, Copy, PartialEq, Eq, Structural)]
pub struct TakeEscrowIx {
    pub escrow_type: EscrowType,
    /// Asset A the taker asks for.
    pub token_a_amount: u64,
    /// Asset B the taker offers; read by Dutch auctions only.
    pub token_b_amount: u64,
}

impl TakeEscrowIx {
    /// Size of the encoded payload in bytes.
    pub const LEN: usize = 17;

    pub fn new(escrow_type: EscrowType, token_a_amount: u64, token_b_amount: u64) -> (r: Self)
        ensures
            r == (TakeEscrowIx { escrow_type, token_a_amount, token_b_amount }),
    {
        TakeEscrowIx { escrow_type, token_a_amount, token_b_amount }
    }

    /// The encoded payload: the variant tag, then both amounts little-endian.
    pub open spec fn spec_pack(self) -> Seq<u8> {
        seq![self.escrow_type.spec_tag()] + le_bytes(self.token_a_amount) + le_bytes(
            self.token_b_amount,
        )
    }

    /// The payload that the bytes `s` hold: exactly 17 bytes with a known tag.
    pub open spec fn spec_unpack(s: Seq<u8>) -> Option<TakeEscrowIx> {
        if s.len() != 17 {
            None
        } else {
            match EscrowType::from_tag(s[0]) {
                None => None,
                Some(t) => Some(
                    TakeEscrowIx {
                        escrow_type: t,
                        token_a_amount: le_u64_at(s, 1),
                        token_b_amount: le_u64_at(s, 9),
                    },
                ),
            }
        }
    }

    pub fn pack(&self) -> (r: [u8; 17])
        ensures
            r@ == self.spec_pack(),
    {
        let mut out: Vec<u8> = Vec::new();
        out.push(self.escrow_type.tag());
        push_u64(&mut out, self.token_a_amount);
        push_u64(&mut out, self.token_b_amount);
        assert(out@ =~= self.spec_pack());
        to_array(&out)
    }

    /// Reads a payload; any length but 17 or an unknown tag is malformed data.
    pub fn unpack(data: &[u8]) -> (r: Result<TakeEscrowIx, EscrowError>)
        ensures
            r == match TakeEscrowIx::spec_unpack(data@) {
                Some(x) => Ok(x),
                None => Err(EscrowError::InvalidInstructionData),
            },
    {
        if data.len() != Self::LEN {
            return Err(EscrowError::InvalidInstructionData);
        }
        Ok(TakeEscrowIx {
            escrow_type: EscrowType::try_from(data[0])?,
            token_a_amount: read_u64(data, 1),
            token_b_amount: read_u64(data, 9),
        })
    }

    /// Decoding an encoded payload gives it back.
    pub proof fn lemma_round_trip(self)
        ensures
            self.spec_pack().len() == TakeEscrowIx::LEN,
            TakeEscrowIx::spec_unpack(self.spec_pack()) == Some(self),
    {
        let s = self.spec_pack();
        lemma_le_u64_round_trip(self.token_a_amount);
        lemma_le_u64_round_trip(self.token_b_amount);
        assert(s[0] == self.escrow_type.spec_tag());
        assert(s.subrange(1, 9) =~= le_bytes(self.token_a_amount));
        assert(s.subrange(9, 17) =~= le_bytes(self.token_b_amount));
        self.escrow_type.lemma_tag_round_trip();
    }
}

/// What the host reports about the accounts of a take instruction.
#[derive(Debug, Clone, Copy, PartialEq, Eq)]
pub struct TakeAccounts {
    /// The address of the record.
    pub escrow: [u8; 32],
    /// The maker, who receives asset B.
    pub maker: [u8; 32],
    /// Whether the taker signed the transaction.
    pub taker_is_signer: bool,
    /// The vault read as a token account; `None` where it is not one.
    pub vault_token_a: Option<TokenAccountState>,
    /// The taker's asset-A holding account, read likewise.
    pub taker_token_a: Option<TokenAccountState>,
    /// The taker's asset-B holding account, read likewise.
    pub taker_token_b: Option<TokenAccountState>,
}

/// What a take instruction asks the host to do.
#[derive(Debug, Clone, Copy, PartialEq, Eq)]
pub struct TakeEffects {
    /// Asset A to move from the vault to the taker, signed for by the
    /// escrow's derived address.
    pub release_a: u64,
    /// Asset B to move from the taker to the maker, signed for by the taker.
    pub payment_b: u64,
    /// The record after the take: a partial fill lowers both remaining
    /// amounts, every other variant leaves it as it was.
    pub record: Escrow,
}

/// The scale of a partial fill's share: ten thousand basis points make the whole.
pub const BASIS_POINTS: u64 = 10000;

/// The share, in basis points rounded down, that `requested` is of `remaining`.
pub open spec fn partial_share(requested: u64, remaining: u64) -> int {
    (requested * BASIS_POINTS) / (remaining as int)
}

/// Asset B owed for `requested` of a partial escrow's remaining asset A:
/// the remaining asset B scaled by the share, rounded down again.
pub open spec fn partial_owed(rec: Escrow, requested: u64) -> int {
    (rec.token_b_amount * partial_share(requested, rec.token_a_amount)) / (BASIS_POINTS as int)
}

/// How an escrow that passed the common checks settles, by variant.
///
/// A simple escrow needs the vault to hold its asset A and the taker its
/// asset B. A partial fill needs the request within what remains and its
/// payment within the taker's asset B; a record with nothing left refuses
/// every fill. A Dutch-auction take needs an offer at or above the current
/// price, and pays that price, not the offer; it checks the requested asset
/// A against the taker's own asset-A holding rather than the vault, as the
/// protocol always has, so a request beyond the vault fails only when the
/// host moves the asset. An oracle escrow has no way to settle.
pub open spec fn settle_outcome(
    acc: TakeAccounts,
    rec: Escrow,
    taker_a: TokenAccountState,
    taker_b: TokenAccountState,
    data: Seq<u8>,
    now: u64,
) -> Result<TakeEffects, EscrowError> {
    let insufficient = EscrowError::Escrow(EscrowErrorCode::InsufficientFunds);
    match rec.escrow_type {
        EscrowType::Simple => match acc.vault_token_a {
            None => Err(EscrowError::InvalidAccountData),
            Some(vault) => if rec.token_a_amount > vault.amount || rec.token_b_amount
                > taker_b.amount {
                Err(insufficient)
            } else {
                Ok(
                    TakeEffects {
                        release_a: rec.token_a_amount,
                        payment_b: rec.token_b_amount,
                        record: rec,
                    },
                )
            },
        },
        EscrowType::Partial => match TakeEscrowIx::spec_unpack(data) {
            None => Err(EscrowError::InvalidInstructionData),
            Some(ix) => if ix.token_a_amount > rec.token_a_amount || rec.token_a_amount == 0 {
                Err(insufficient)
            } else if partial_owed(rec, ix.token_a_amount) > taker_b.amount {
                Err(insufficient)
            } else {
                let owed = partial_owed(rec, ix.token_a_amount);
                Ok(
                    TakeEffects {
                        release_a: ix.token_a_amount,
                        payment_b: owed as u64,
                        record: Escrow {
                            token_a_amount: (rec.token_a_amount - ix.token_a_amount) as u64,
                            token_b_amount: (rec.token_b_amount - owed) as u64,
                            ..rec
                        },
                    },
                )
            },
        },
        EscrowType::DutchAuction => match TakeEscrowIx::spec_unpack(data) {
            None => Err(EscrowError::InvalidInstructionData),
            Some(ix) => if ix.token_a_amount > taker_a.amount {
                Err(insufficient)
            } else if ix.token_b_amount < rec.required_token_b(now) {
                Err(insufficient)
            } else {
                Ok(
                    TakeEffects {
                        release_a: ix.token_a_amount,
                        payment_b: rec.required_token_b(now) as u64,
                        record: rec,
                    },
                )
            },
        },
        EscrowType::Oracle => Err(EscrowError::Escrow(EscrowErrorCode::InvalidEscrowType)),
    }
}

/// The outcome of a take instruction on the record `rec`, given the
/// derivation of its address from its own owner, seed and bump. The maker
/// account that is paid must be the record's owner, so that no other
/// account can be put in its place.
pub open spec fn take_outcome(
    acc: TakeAccounts,
    rec: Escrow,
    derived: Option<[u8; 32]>,
    data: Seq<u8>,
    now: u64,
) -> Result<TakeEffects, EscrowError> {
    match address_check(acc.escrow, derived) {
        Err(e) => Err(e),
        Ok(_) => if rec.maker_pubkey@ != acc.maker@ {
            Err(EscrowError::Escrow(EscrowErrorCode::PdaMismatch))
        } else if !acc.taker_is_signer {
            Err(EscrowError::Escrow(EscrowErrorCode::InvalidMaker))
        } else {
            match (acc.taker_token_a, acc.taker_token_b) {
                (Some(ta), Some(tb)) => if ta.mint@ != rec.token_a_mint@ || tb.mint@
                    != rec.token_b_mint@ {
                    Err(EscrowError::Escrow(EscrowErrorCode::InvalidTokenMint))
                } else {
                    settle_outcome(acc, rec, ta, tb, data, now)
                },
                _ => Err(EscrowError::InvalidAccountData),
            }
        },
    }
}

/// Settles a partial fill of `requested` asset A.
fn settle_partial(rec: &Escrow, requested: u64, taker_b: &TokenAccountState) -> (r: Result<
    TakeEffects,
    EscrowError,
>)
    requires
        requested <= rec.token_a_amount,
        rec.token_a_amount > 0,
    ensures
        r == (if partial_owed(*rec, requested) > taker_b.amount {
            Err(EscrowError::Escrow(EscrowErrorCode::InsufficientFunds))
        } else {
            Ok(
                TakeEffects {
                    release_a: requested,
                    payment_b: partial_owed(*rec, requested) as u64,
                    record: Escrow {
                        token_a_amount: (rec.token_a_amount - requested) as u64,
                        token_b_amount: (rec.token_b_amount - partial_owed(*rec, requested)) as u64,
                        ..*rec
                    },
                },
            )
        }),
{
    let percentage = (requested as u128 * BASIS_POINTS as u128) / rec.token_a_amount as u128;
    proof {
        lemma_scaled_share_bounded(
            BASIS_POINTS as int,
            requested as int,
            rec.token_a_amount as int,
        );
        assert(requested * BASIS_POINTS == BASIS_POINTS * requested) by (nonlinear_arith);
    }
    proof {
        assert(rec.token_b_amount * percentage <= u64::MAX * BASIS_POINTS) by (nonlinear_arith)
            requires
                percentage <= BASIS_POINTS,
                rec.token_b_amount <= u64::MAX,
                percentage >= 0,
                rec.token_b_amount >= 0,
        ;
    }
    let owed = (rec.token_b_amount as u128 * percentage) / BASIS_POINTS as u128;
    proof {
        lemma_scaled_share_bounded(
            rec.token_b_amount as int,
            percentage as int,
            BASIS_POINTS as int,
        );
    }
    let owed = owed as u64;
    if owed > taker_b.amount {
        return Err(EscrowError::Escrow(EscrowErrorCode::InsufficientFunds));
    }
    let mut record = *rec;
    record.token_a_amount = rec.token_a_amount - requested;
    record.token_b_amount = rec.token_b_amount - owed;
    Ok(TakeEffects { release_a: requested, payment_b: owed, record })
}

/// A partial fill conserves both assets: what it releases and what it
/// leaves add up to what remained, and likewise for the payment. The
/// payment never exceeds the exact proportional share of the remaining
/// asset B, and while that asset is at most the basis-point scale it falls
/// short of the share rounded down by at most one unit. Taking all that
/// remains of asset A empties asset B too.
pub proof fn lemma_partial_fill_conserves(rec: Escrow, requested: u64)
    requires
        rec.escrow_type == EscrowType::Partial,
        0 < rec.token_a_amount,
        requested <= rec.token_a_amount,
    ensures
        0 <= partial_owed(rec, requested) <= rec.token_b_amount,
        partial_owed(rec, requested) * rec.token_a_amount <= rec.token_b_amount * requested,
        rec.token_b_amount <= BASIS_POINTS ==> (rec.token_b_amount * requested)
            / (rec.token_a_amount as int) <= partial_owed(rec, requested) + 1,
        requested == rec.token_a_amount ==> partial_owed(rec, requested) == rec.token_b_amount,
{
    let total_a = rec.token_a_amount as int;
    let total_b = rec.token_b_amount as int;
    let bp = BASIS_POINTS as int;
    let share = partial_share(requested, rec.token_a_amount);
    let owed = partial_owed(rec, requested);
    assert(bp * requested == requested * bp) by (nonlinear_arith);
    lemma_scaled_share_bounded(bp, requested as int, total_a);
    lemma_scaled_share_bounded(total_b, share, bp);
    lemma_fundamental_div_mod(requested * bp, total_a);
    lemma_mod_bound(requested * bp, total_a);
    lemma_fundamental_div_mod(total_b * share, bp);
    lemma_mod_bound(total_b * share, bp);
    assert(owed * total_a <= total_b * requested) by (nonlinear_arith)
        requires
            total_a > 0,
            total_b >= 0,
            share >= 0,
            owed >= 0,
            requested * bp == total_a * share + (requested * bp) % total_a,
            (requested * bp) % total_a >= 0,
            total_b * share == bp * owed + (total_b * share) % bp,
            (total_b * share) % bp >= 0,
            bp == 10000,
    ;
    if total_b <= bp {
        let exact = (total_b * requested) / total_a;
        lemma_fundamental_div_mod(total_b * requested, total_a);
        lemma_mod_bound(total_b * requested, total_a);
        assert(bp * total_b * requested < bp * total_a * (owed + 2)) by (nonlinear_arith)
            requires
                total_a > 0,
                0 <= total_b <= bp,
                requested >= 0,
                requested * bp == total_a * share + (requested * bp) % total_a,
                0 <= (requested * bp) % total_a < total_a,
                total_b * share == bp * owed + (total_b * share) % bp,
                0 <= (total_b * share) % bp < bp,
                bp == 10000,
        ;
        assert(exact < owed + 2) by (nonlinear_arith)
            requires
                bp * total_b * requested < bp * total_a * (owed + 2),
                total_b * requested == total_a * exact + (total_b * requested) % total_a,
                0 <= (total_b * requested) % total_a,
                total_a > 0,
                bp == 10000,
        ;
    }
    if requested == rec.token_a_amount {
        lemma_fundamental_div_mod_converse(requested * bp, total_a, bp, 0);
        lemma_fundamental_div_mod_converse(total_b * bp, bp, total_b, 0);
    }
}

/// A take that asks for more than remains of a partial escrow, or that
/// offers less than a Dutch auction's current price, is refused; by the
/// contract of `take_escrow` the record's bytes then stay as they were and
/// no asset moves.
pub proof fn lemma_insufficient_take_rejected(
    acc: TakeAccounts,
    rec: Escrow,
    derived: Option<[u8; 32]>,
    data: Seq<u8>,
    now: u64,
)
    requires
        TakeEscrowIx::spec_unpack(data) is Some,
        ({
            let ix = TakeEscrowIx::spec_unpack(data)->Some_0;
            ||| rec.escrow_type == EscrowType::Partial && ix.token_a_amount > rec.token_a_amount
            ||| rec.escrow_type == EscrowType::DutchAuction && ix.token_b_amount
                < rec.required_token_b(now)
        }),
    ensures
        take_outcome(acc, rec, derived, data, now) is Err,
{
}

/// Decides a take instruction on the record `rec`, given the derivation of
/// its address and the time.
pub fn plan_take(
    acc: &TakeAccounts,
    rec: &Escrow,
    derived: Option<[u8; 32]>,
    data: &[u8],
    now: u64,
) -> (r: Result<TakeEffects, EscrowError>)
    ensures
        r == take_outcome(*acc, *rec, derived, data@, now),
{
    Escrow::validate_escrow_pda(&acc.escrow, derived)?;
    if !same_key(&rec.maker_pubkey, &acc.maker) {
        return Err(EscrowError::Escrow(EscrowErrorCode::PdaMismatch));
    }
    if !acc.taker_is_signer {
        return Err(EscrowError::Escrow(EscrowErrorCode::InvalidMaker));
    }
    let (taker_a, taker_b) = match (&acc.taker_token_a, &acc.taker_token_b) {
        (Some(ta), Some(tb)) => (ta, tb),
        _ => return Err(EscrowError::InvalidAccountData),
    };
    if !same_key(&taker_a.mint, &rec.token_a_mint) || !same_key(&taker_b.mint, &rec.token_b_mint) {
        return Err(EscrowError::Escrow(EscrowErrorCode::InvalidTokenMint));
    }
    match rec.escrow_type {
        EscrowType::Simple => {
            let vault = match &acc.vault_token_a {
                Some(v) => v,
                None => return Err(EscrowError::InvalidAccountData),
            };
            if rec.token_a_amount > vault.amount || rec.token_b_amount > taker_b.amount {
                return Err(EscrowError::Escrow(EscrowErrorCode::InsufficientFunds));
            }
            Ok(TakeEffects {
                release_a: rec.token_a_amount,
                payment_b: rec.token_b_amount,
                record: *rec,
            })
        },
        EscrowType::Partial => {
            let ix = TakeEscrowIx::unpack(data)?;
            if ix.token_a_amount > rec.token_a_amount || rec.token_a_amount == 0 {
                return Err(EscrowError::Escrow(EscrowErrorCode::InsufficientFunds));
            }
            settle_partial(rec, ix.token_a_amount, taker_b)
        },
        EscrowType::DutchAuction => {
            let ix = TakeEscrowIx::unpack(data)?;
            if ix.token_a_amount > taker_a.amount {
                return Err(EscrowError::Escrow(EscrowErrorCode::InsufficientFunds));
            }
            let required = rec.get_required_token_b_amount(now);
            if ix.token_b_amount < required {
                return Err(EscrowError::Escrow(EscrowErrorCode::InsufficientFunds));
            }
            Ok(TakeEffects { release_a: ix.token_a_amount, payment_b: required, record: *rec })
        },
        EscrowType::Oracle => Err(EscrowError::Escrow(EscrowErrorCode::InvalidEscrowType)),
    }
}

/// Decides a take instruction on the record stored in `record_data`:
/// decodes it, checks its address, and settles by variant. A partial fill
/// rewrites the remaining amounts in place; on failure the bytes are left
/// as they were. No take closes the record: a settled escrow stays stored
/// at its address.
///
/// `derived` is the host's derivation of the escrow address from the
/// stored owner, seed and bump (see `escrow_seeds`); `now` is the host's
/// clock, which only a Dutch auction reads.
pub fn take_escrow(
    acc: &TakeAccounts,
    record_data: &mut Vec<u8>,
    data: &[u8],
    derived: Option<[u8; 32]>,
    now: u64,
) -> (r: Result<TakeEffects, EscrowError>)
    ensures
        !Escrow::decodable(old(record_data)@) ==> r == Err::<TakeEffects, EscrowError>(
            EscrowError::InvalidAccountData,
        ),
        forall|rec: Escrow| #[trigger]
            Escrow::layout_holds(old(record_data)@, rec) ==> r == take_outcome(
                *acc,
                rec,
                derived,
                data@,
                now,
            ),
        r is Err ==> final(record_data)@ == old(record_data)@,
        r matches Ok(fx) ==> Escrow::layout_holds(final(record_data)@, fx.record),
        r matches Ok(fx) ==> final(record_data)@ == if fx.record.escrow_type
            == EscrowType::Partial {
            Escrow::with_amounts(
                old(record_data)@,
                fx.record.token_a_amount,
                fx.record.token_b_amount,
            )
        } else {
            old(record_data)@
        },
{
    let rec = Escrow::unpack(record_data.as_slice())?;
    proof {
        assert forall|d: Escrow| #[trigger]
            Escrow::layout_holds(record_data@, d) implies d == rec by {
            Escrow::lemma_layout_determines(record_data@, d, rec);
        }
    }
    let fx = plan_take(acc, &rec, derived, data, now)?;
    if rec.escrow_type == EscrowType::Partial {
        let ghost before = record_data@;
        write_u64_at(record_data, 72, fx.record.token_a_amount);
        let ghost middle = record_data@;
        write_u64_at(record_data, 112, fx.record.token_b_amount);
        proof {
            lemma_le_u64_round_trip(fx.record.token_a_amount);
            lemma_le_u64_round_trip(fx.record.token_b_amount);
            assert(middle.len() == before.len());
            assert(record_data@ =~= Escrow::with_amounts(
                before,
                fx.record.token_a_amount,
                fx.record.token_b_amount,
            ));
            Escrow::lemma_amounts_rewritten(
                before,
                rec,
                fx.record.token_a_amount,
                fx.record.token_b_amount,
            );
        }
    }
    Ok(fx)
}

} // verus!
