//! The persisted escrow record: its variants, byte layout, pricing and the
//! derivation of its address.
use vstd::prelude::*;
use vstd::string::StringSliceAdditionalSpecFns;
use crate::bytes::{
    le_bytes, le_u64_at, lemma_arrays_equal, lemma_le_u64_round_trip, push_bytes, push_u64,
    push_zeros, read_array, read_u64, same_key, to_array, zeros,
};
use crate::error::{EscrowError, EscrowErrorCode};
use crate::instructions::MakeEscrowIx;
use vstd::arithmetic::div_mod::{
    lemma_div_is_ordered, lemma_fundamental_div_mod, lemma_fundamental_div_mod_converse,
    lemma_mod_bound,
};
use vstd::arithmetic::mul::lemma_mul_inequality;

verus! {

/// How an escrow settles.
#[derive(Debug, Clone, Copy, PartialEq, Eq, Structural)]
pub enum EscrowType {
    /// The whole offer is swapped at once.
    Simple,
    /// Takers fill the offer piece by piece, paying in proportion.
    Partial,
    /// The price in asset B falls linearly over time.
    DutchAuction,
    /// Declared but without any settlement path.
    Oracle,
}

impl EscrowType {
    /// The variant that a tag byte names, if any.
    pub open spec fn from_tag(v: u8) -> Option<EscrowType> {
        if v == 0 {
            Some(EscrowType::Simple)
        } else if v == 1 {
            Some(EscrowType::Partial)
        } else if v == 2 {
            Some(EscrowType::DutchAuction)
        } else if v == 3 {
            Some(EscrowType::Oracle)
        } else {
            None
        }
    }

    /// The tag byte of a variant.
    pub open spec fn spec_tag(self) -> u8 {
        match self {
            EscrowType::Simple => 0,
            EscrowType::Partial => 1,
            EscrowType::DutchAuction => 2,
            EscrowType::Oracle => 3,
        }
    }

    pub fn tag(self) -> (r: u8)
        ensures
            r == self.spec_tag(),
    {
        match self {
            EscrowType::Simple => 0,
            EscrowType::Partial => 1,
            EscrowType::DutchAuction => 2,
            EscrowType::Oracle => 3,
        }
    }

    /// Reads a tag byte; any value outside 0..=3 is malformed data.
    pub fn try_from(value: u8) -> (r: Result<EscrowType, EscrowError>)
        ensures
            match EscrowType::from_tag(value) {
                Some(t) => r == Ok::<EscrowType, EscrowError>(t),
                None => r == Err::<EscrowType, EscrowError>(EscrowError::InvalidInstructionData),
            },
    {
        match value {
            0 => Ok(EscrowType::Simple),
            1 => Ok(EscrowType::Partial),
            2 => Ok(EscrowType::DutchAuction),
            3 => Ok(EscrowType::Oracle),
            _ => Err(EscrowError::InvalidInstructionData),
        }
    }

    /// Tags and variants correspond one to one.
    pub proof fn lemma_tag_round_trip(self)
        ensures
            EscrowType::from_tag(self.spec_tag()) == Some(self),
    {
    }
}


/// What a token account holds, as the host reports it.
#[derive(Debug, Clone, Copy, PartialEq, Eq)]
pub struct TokenAccountState {
    /// The asset class of the holding.
    pub mint: [u8; 32],
    /// Who may move the holding.
    pub owner: [u8; 32],
    pub amount: u64,
}

/// The state of one open escrow, stored at its derived address.
#[derive(Debug, Clone, Copy, PartialEq, Eq)]
pub struct Escrow {
    pub maker_pubkey: [u8; 32],
    pub seed: [u8; 2],
    pub escrow_type: EscrowType,
    pub token_a_mint: [u8; 32],
    /// Asset A still on offer; for a partial escrow, what remains unfilled.
    pub token_a_amount: u64,
    pub token_b_mint: [u8; 32],
    /// Asset B asked for; for a partial escrow, what remains to be paid.
    pub token_b_amount: u64,
    pub bump: u8,
    /// Price in asset B at the start of a Dutch auction.
    pub start_price: u64,
    /// Price in asset B once a Dutch auction has run its course.
    pub end_price: u64,
    /// When the auction started, set when the escrow is made.
    pub start_time: u64,
    /// How long the price falls, in seconds.
    pub duration: u64,
    /// `start_time + duration`, computed when the escrow is made.
    pub end_time: u64,
}

impl Escrow {
    /// Size of the stored record in bytes, alignment padding included.
    pub const LEN: usize = 168;

    /// The first seed of every escrow address.
    pub const PREFIX: &'static str = "Escrow";

    /// Checks a caller-supplied address against `derived`, the host's
    /// derivation of the escrow's address from its seeds (see
    /// `escrow_seeds`) under the program: `InvalidSeeds` where the host
    /// derived none, `PdaMismatch` where it derived another.
    pub fn validate_escrow_pda(pda: &[u8; 32], derived: Option<[u8; 32]>) -> (r: Result<
        (),
        EscrowError,
    >)
        ensures
            r == address_check(*pda, derived),
    {
        match derived {
            None => Err(EscrowError::InvalidSeeds),
            Some(a) => if same_key(&a, pda) {
                Ok(())
            } else {
                Err(EscrowError::Escrow(EscrowErrorCode::PdaMismatch))
            },
        }
    }

    /// A record with the given terms and no auction fields.
    pub fn new(
        escrow_type: EscrowType,
        maker_pubkey: [u8; 32],
        seed: [u8; 2],
        token_a_mint: [u8; 32],
        token_a_amount: u64,
        token_b_mint: [u8; 32],
        token_b_amount: u64,
        bump: u8,
    ) -> (r: Self)
        ensures
            r == (Escrow {
                maker_pubkey,
                seed,
                escrow_type,
                token_a_mint,
                token_a_amount,
                token_b_mint,
                token_b_amount,
                bump,
                start_price: 0,
                end_price: 0,
                start_time: 0,
                duration: 0,
                end_time: 0,
            }),
    {
        Escrow {
            maker_pubkey,
            seed,
            escrow_type,
            token_a_mint,
            token_a_amount,
            token_b_mint,
            token_b_amount,
            bump,
            start_price: 0,
            end_price: 0,
            start_time: 0,
            duration: 0,
            end_time: 0,
        }
    }

    /// The record that a make instruction creates: the terms come from the
    /// payload; a Dutch auction also takes its start price from the asked
    /// amount and its times from `start_time` and `end_time`, while every
    /// other variant leaves the auction fields zero.
    pub open spec fn spec_initialize(
        ix: MakeEscrowIx,
        seed: [u8; 2],
        token_a_mint: [u8; 32],
        token_b_mint: [u8; 32],
        maker_pubkey: [u8; 32],
        start_time: u64,
        end_time: u64,
    ) -> Escrow {
        let dutch = ix.escrow_type == EscrowType::DutchAuction;
        Escrow {
            maker_pubkey,
            seed,
            escrow_type: ix.escrow_type,
            token_a_mint,
            token_a_amount: ix.token_a_amount,
            token_b_mint,
            token_b_amount: ix.token_b_amount,
            bump: ix.bump,
            start_price: if dutch { ix.token_b_amount } else { 0 },
            end_price: if dutch { ix.end_price } else { 0 },
            start_time: if dutch { start_time } else { 0 },
            duration: if dutch { ix.duration } else { 0 },
            end_time: if dutch { end_time } else { 0 },
        }
    }

    pub fn initialize(
        ix_data: &MakeEscrowIx,
        seed: [u8; 2],
        token_a_mint: [u8; 32],
        token_b_mint: [u8; 32],
        maker_pubkey: [u8; 32],
        start_time: u64,
        end_time: u64,
    ) -> (r: Escrow)
        ensures
            r == Escrow::spec_initialize(
                *ix_data,
                seed,
                token_a_mint,
                token_b_mint,
                maker_pubkey,
                start_time,
                end_time,
            ),
    {
        let mut escrow = Escrow::new(
            ix_data.escrow_type,
            maker_pubkey,
            seed,
            token_a_mint,
            ix_data.token_a_amount,
            token_b_mint,
            ix_data.token_b_amount,
            ix_data.bump,
        );
        if ix_data.escrow_type == EscrowType::DutchAuction {
            escrow.start_price = ix_data.token_b_amount;
            escrow.end_price = ix_data.end_price;
            escrow.duration = ix_data.duration;
            escrow.start_time = start_time;
            escrow.end_time = end_time;
        }
        escrow
    }

    /// The stored form of a record: fields in declaration order, integers
    /// little-endian, with the padding of a C layout written as zeros.
    pub open spec fn spec_pack(self) -> Seq<u8> {
        self.maker_pubkey@ + self.seed@ + seq![self.escrow_type.spec_tag()] + self.token_a_mint@
            + zeros(5) + le_bytes(self.token_a_amount) + self.token_b_mint@ + le_bytes(
            self.token_b_amount,
        ) + seq![self.bump] + zeros(7) + le_bytes(self.start_price) + le_bytes(self.end_price)
            + le_bytes(self.start_time) + le_bytes(self.duration) + le_bytes(self.end_time)
    }

    /// Whether `s` holds a record: it is long enough and its variant tag is known.
    pub open spec fn decodable(s: Seq<u8>) -> bool {
        &&& s.len() >= 168
        &&& EscrowType::from_tag(s[34]) is Some
    }

    /// Whether `e` is the record that the bytes `s` hold, field by field.
    pub open spec fn layout_holds(s: Seq<u8>, e: Escrow) -> bool {
        &&& s.len() >= 168
        &&& e.maker_pubkey@ == s.subrange(0, 32)
        &&& e.seed@ == s.subrange(32, 34)
        &&& EscrowType::from_tag(s[34]) == Some(e.escrow_type)
        &&& e.token_a_mint@ == s.subrange(35, 67)
        &&& e.token_a_amount == le_u64_at(s, 72)
        &&& e.token_b_mint@ == s.subrange(80, 112)
        &&& e.token_b_amount == le_u64_at(s, 112)
        &&& e.bump == s[120]
        &&& e.start_price == le_u64_at(s, 128)
        &&& e.end_price == le_u64_at(s, 136)
        &&& e.start_time == le_u64_at(s, 144)
        &&& e.duration == le_u64_at(s, 152)
        &&& e.end_time == le_u64_at(s, 160)
    }

    /// Reads a record from an account's bytes; bytes beyond the record are ignored.
    pub fn unpack(data: &[u8]) -> (r: Result<Escrow, EscrowError>)
        ensures
            r is Ok <==> Escrow::decodable(data@),
            r matches Ok(e) ==> Escrow::layout_holds(data@, e),
            r is Err ==> r == Err::<Escrow, EscrowError>(EscrowError::InvalidAccountData),
    {
        if data.len() < Self::LEN {
            return Err(EscrowError::InvalidAccountData);
        }
        let escrow_type = match EscrowType::try_from(data[34]) {
            Ok(t) => t,
            Err(_) => return Err(EscrowError::InvalidAccountData),
        };
        Ok(Escrow {
            maker_pubkey: read_array(data, 0),
            seed: read_array(data, 32),
            escrow_type,
            token_a_mint: read_array(data, 35),
            token_a_amount: read_u64(data, 72),
            token_b_mint: read_array(data, 80),
            token_b_amount: read_u64(data, 112),
            bump: data[120],
            start_price: read_u64(data, 128),
            end_price: read_u64(data, 136),
            start_time: read_u64(data, 144),
            duration: read_u64(data, 152),
            end_time: read_u64(data, 160),
        })
    }

    /// Writes a record in its stored form.
    pub fn pack(&self) -> (r: [u8; 168])
        ensures
            r@ == self.spec_pack(),
    {
        let mut out: Vec<u8> = Vec::new();
        push_bytes(&mut out, self.maker_pubkey.as_slice());
        push_bytes(&mut out, self.seed.as_slice());
        out.push(self.escrow_type.tag());
        push_bytes(&mut out, self.token_a_mint.as_slice());
        push_zeros(&mut out, 5);
        push_u64(&mut out, self.token_a_amount);
        push_bytes(&mut out, self.token_b_mint.as_slice());
        push_u64(&mut out, self.token_b_amount);
        out.push(self.bump);
        push_zeros(&mut out, 7);
        push_u64(&mut out, self.start_price);
        push_u64(&mut out, self.end_price);
        push_u64(&mut out, self.start_time);
        push_u64(&mut out, self.duration);
        push_u64(&mut out, self.end_time);
        assert(out@ =~= self.spec_pack());
        to_array(&out)
    }

    /// The bytes of a record determine it.
    pub proof fn lemma_layout_determines(s: Seq<u8>, x: Escrow, y: Escrow)
        requires
            Escrow::layout_holds(s, x),
            Escrow::layout_holds(s, y),
        ensures
            x == y,
    {
        lemma_arrays_equal(x.maker_pubkey, y.maker_pubkey);
        lemma_arrays_equal(x.seed, y.seed);
        lemma_arrays_equal(x.token_a_mint, y.token_a_mint);
        lemma_arrays_equal(x.token_b_mint, y.token_b_mint);
    }

    /// Stored bytes with the two asset amounts rewritten in place.
    pub open spec fn with_amounts(s: Seq<u8>, a: u64, b: u64) -> Seq<u8> {
        s.subrange(0, 72) + le_bytes(a) + s.subrange(80, 112) + le_bytes(b) + s.subrange(
            120,
            s.len() as int,
        )
    }

    /// Rewriting the amounts in place stores the record with those amounts.
    pub proof fn lemma_amounts_rewritten(s: Seq<u8>, rec: Escrow, a: u64, b: u64)
        requires
            Escrow::layout_holds(s, rec),
        ensures
            Escrow::layout_holds(
                Escrow::with_amounts(s, a, b),
                Escrow { token_a_amount: a, token_b_amount: b, ..rec },
            ),
    {
        let t = Escrow::with_amounts(s, a, b);
        lemma_le_u64_round_trip(a);
        lemma_le_u64_round_trip(b);
        assert(t.len() == s.len());
        assert forall|i: int| (0 <= i < 72 || 80 <= i < 112 || 120 <= i < s.len()) implies t[i]
            == s[i] by {}
        assert(t.subrange(0, 32) =~= s.subrange(0, 32));
        assert(t.subrange(32, 34) =~= s.subrange(32, 34));
        assert(t.subrange(35, 67) =~= s.subrange(35, 67));
        assert(t.subrange(72, 80) =~= le_bytes(a));
        assert(t.subrange(80, 112) =~= s.subrange(80, 112));
        assert(t.subrange(112, 120) =~= le_bytes(b));
        assert(t.subrange(128, 136) =~= s.subrange(128, 136));
        assert(t.subrange(136, 144) =~= s.subrange(136, 144));
        assert(t.subrange(144, 152) =~= s.subrange(144, 152));
        assert(t.subrange(152, 160) =~= s.subrange(152, 160));
        assert(t.subrange(160, 168) =~= s.subrange(160, 168));
    }

    /// Reading back the stored form of a record gives the same record.
    pub proof fn lemma_round_trip(self, d: Escrow)
        ensures
            self.spec_pack().len() == Escrow::LEN,
            Escrow::decodable(self.spec_pack()),
            Escrow::layout_holds(self.spec_pack(), self),
            Escrow::layout_holds(self.spec_pack(), d) ==> d == self,
    {
        let s = self.spec_pack();
        lemma_le_u64_round_trip(self.token_a_amount);
        lemma_le_u64_round_trip(self.token_b_amount);
        lemma_le_u64_round_trip(self.start_price);
        lemma_le_u64_round_trip(self.end_price);
        lemma_le_u64_round_trip(self.start_time);
        lemma_le_u64_round_trip(self.duration);
        lemma_le_u64_round_trip(self.end_time);
        assert(s.subrange(0, 32) =~= self.maker_pubkey@);
        assert(s.subrange(32, 34) =~= self.seed@);
        assert(s[34] == self.escrow_type.spec_tag());
        assert(s.subrange(35, 67) =~= self.token_a_mint@);
        assert(s.subrange(72, 80) =~= le_bytes(self.token_a_amount));
        assert(s.subrange(80, 112) =~= self.token_b_mint@);
        assert(s.subrange(112, 120) =~= le_bytes(self.token_b_amount));
        assert(s[120] == self.bump);
        assert(s.subrange(128, 136) =~= le_bytes(self.start_price));
        assert(s.subrange(136, 144) =~= le_bytes(self.end_price));
        assert(s.subrange(144, 152) =~= le_bytes(self.start_time));
        assert(s.subrange(152, 160) =~= le_bytes(self.duration));
        assert(s.subrange(160, 168) =~= le_bytes(self.end_time));
        self.escrow_type.lemma_tag_round_trip();
        if Escrow::layout_holds(s, d) {
            lemma_arrays_equal(d.maker_pubkey, self.maker_pubkey);
            lemma_arrays_equal(d.seed, self.seed);
            lemma_arrays_equal(d.token_a_mint, self.token_a_mint);
            lemma_arrays_equal(d.token_b_mint, self.token_b_mint);
        }
    }

    /// The Dutch-auction price at time `now`: the start price up to the
    /// start, the end price from the end on, and in between the start price
    /// less the price drop scaled by the elapsed share of the span, the
    /// product taken before the division, which rounds down.
    ///
    /// Nothing requires the end price to lie below the start price when an
    /// escrow is made; on such a record the same formula makes the price rise.
    pub open spec fn dutch_price(self, now: u64) -> int {
        if now <= self.start_time {
            self.start_price as int
        } else if now >= self.end_time {
            self.end_price as int
        } else {
            self.start_price - ((self.start_price - self.end_price) * (now - self.start_time)) / (
            self.end_time - self.start_time)
        }
    }

    /// The asset-B amount a taker owes at time `now`: the auction price for a
    /// Dutch auction, the fixed amount otherwise.
    pub open spec fn required_token_b(self, now: u64) -> int {
        match self.escrow_type {
            EscrowType::DutchAuction => self.dutch_price(now),
            _ => self.token_b_amount as int,
        }
    }

    /// Price in asset B for this escrow at `current_time`.
    pub fn calculate_dutch_price(&self, current_time: u64) -> (r: u64)
        ensures
            r == self.required_token_b(current_time),
    {
        match self.escrow_type {
            EscrowType::DutchAuction => {
                if current_time <= self.start_time {
                    return self.start_price;
                }
                if current_time >= self.end_time {
                    return self.end_price;
                }
                let time_elapsed = current_time - self.start_time;
                let total_duration = self.end_time - self.start_time;
                if self.start_price >= self.end_price {
                    let price_drop = self.start_price - self.end_price;
                    proof {
                        lemma_product_fits_u128(price_drop, time_elapsed);
                    }
                    let price_reduction = (price_drop as u128 * time_elapsed as u128)
                        / total_duration as u128;
                    proof {
                        lemma_scaled_share_bounded(
                            price_drop as int,
                            time_elapsed as int,
                            total_duration as int,
                        );
                    }
                    self.start_price - (price_reduction as u64)
                } else {
                    let price_rise = self.end_price - self.start_price;
                    proof {
                        lemma_product_fits_u128(price_rise, time_elapsed);
                    }
                    let rise_so_far = (price_rise as u128 * time_elapsed as u128 + (
                    total_duration as u128 - 1)) / total_duration as u128;
                    proof {
                        lemma_scaled_share_bounded(
                            price_rise as int,
                            time_elapsed as int,
                            total_duration as int,
                        );
                        lemma_negated_quotient(
                            price_rise as int * time_elapsed as int,
                            total_duration as int,
                        );
                        assert((self.start_price - self.end_price) * (current_time
                            - self.start_time) == -(price_rise as int * time_elapsed as int))
                            by (nonlinear_arith)
                            requires
                                price_rise == self.end_price - self.start_price,
                                time_elapsed == current_time - self.start_time,
                        ;
                    }
                    self.start_price + (rise_so_far as u64)
                }
            },
            _ => self.token_b_amount,
        }
    }

    /// The asset-B amount a taker must pay at `current_time`.
    pub fn get_required_token_b_amount(&self, current_time: u64) -> (r: u64)
        ensures
            r == self.required_token_b(current_time),
    {
        match self.escrow_type {
            EscrowType::DutchAuction => self.calculate_dutch_price(current_time),
            _ => self.token_b_amount,
        }
    }

    /// A Dutch price lies between the auction's two boundary prices.
    pub proof fn lemma_dutch_price_bounded(self, now: u64)
        requires
            self.end_price <= self.start_price,
        ensures
            self.end_price <= self.dutch_price(now) <= self.start_price,
    {
        if self.start_time < now < self.end_time {
            lemma_scaled_share_bounded(
                self.start_price - self.end_price,
                now - self.start_time,
                self.end_time - self.start_time,
            );
        }
    }

    /// Where the end price does not exceed the start price, the Dutch price
    /// never rises as time goes on.
    pub proof fn lemma_dutch_price_non_increasing(self, t1: u64, t2: u64)
        requires
            self.end_price <= self.start_price,
            t1 <= t2,
        ensures
            self.dutch_price(t2) <= self.dutch_price(t1),
    {
        self.lemma_dutch_price_bounded(t1);
        self.lemma_dutch_price_bounded(t2);
        if self.start_time < t1 && t2 < self.end_time {
            let drop = self.start_price - self.end_price;
            let span = self.end_time - self.start_time;
            lemma_mul_inequality(t1 - self.start_time, t2 - self.start_time, drop);
            assert(drop * (t1 - self.start_time) <= drop * (t2 - self.start_time))
                by (nonlinear_arith)
                requires
                    (t1 - self.start_time) * drop <= (t2 - self.start_time) * drop,
            ;
            lemma_div_is_ordered(
                drop * (t1 - self.start_time),
                drop * (t2 - self.start_time),
                span,
            );
        }
    }

    /// A simpler decay, kept as a utility: the start price less
    /// `decay_rate` per elapsed second, never below `min_price`.
    pub open spec fn linear_decay_price(self, now: u64, decay_rate: u64, min_price: u64) -> int {
        if now <= self.start_time {
            self.start_price as int
        } else {
            let decayed = self.start_price - decay_rate * (now - self.start_time);
            let floored = if decayed < 0 {
                0
            } else {
                decayed
            };
            if floored < min_price {
                min_price as int
            } else {
                floored
            }
        }
    }

    /// The linear-decay price of a Dutch auction; the fixed amount for any
    /// other escrow.
    pub fn simple_dutch_price(&self, current_time: u64, decay_rate: u64, min_price: u64) -> (r: u64)
        ensures
            r == match self.escrow_type {
                EscrowType::DutchAuction => self.linear_decay_price(
                    current_time,
                    decay_rate,
                    min_price,
                ),
                _ => self.token_b_amount as int,
            },
    {
        match self.escrow_type {
            EscrowType::DutchAuction => {
                if current_time <= self.start_time {
                    return self.start_price;
                }
                let time_elapsed = current_time - self.start_time;
                proof {
                    lemma_product_fits_u128(decay_rate, time_elapsed);
                }
                let total_decay = decay_rate as u128 * time_elapsed as u128;
                let decayed = if total_decay >= self.start_price as u128 {
                    0
                } else {
                    self.start_price - total_decay as u64
                };
                if decayed < min_price {
                    min_price
                } else {
                    decayed
                }
            },
            _ => self.token_b_amount,
        }
    }
}

/// The seeds of an escrow's address: the prefix, the owner, the
/// owner's disambiguating seed and the bump.
pub open spec fn escrow_seeds(owner: [u8; 32], seed: [u8; 2], bump: u8) -> Seq<Seq<u8>> {
    seq![Escrow::PREFIX.spec_bytes(), owner@, seed@, seq![bump]]
}

/// The outcome of checking `pda` against the host's derivation: none
/// derived, or another address, is an error.
pub open spec fn address_check(pda: [u8; 32], derived: Option<[u8; 32]>) -> Result<
    (),
    EscrowError,
> {
    match derived {
        None => Err(EscrowError::InvalidSeeds),
        Some(a) => if a@ == pda@ {
            Ok(())
        } else {
            Err(EscrowError::Escrow(EscrowErrorCode::PdaMismatch))
        },
    }
}

/// The check passes exactly when the host derived the very address
/// supplied: an address passes against the derivation it came from, and
/// any other derived address is refused as a mismatch.
pub proof fn lemma_address_check(pda: [u8; 32], derived: [u8; 32])
    ensures
        address_check(derived, Some(derived)) == Ok::<(), EscrowError>(()),
        address_check(pda, Some(derived)) is Ok <==> pda == derived,
        pda != derived ==> address_check(pda, Some(derived)) == Err::<(), EscrowError>(
            EscrowError::Escrow(EscrowErrorCode::PdaMismatch),
        ),
{
    if derived@ == pda@ {
        lemma_arrays_equal(derived, pda);
    }
}

/// Escrows that differ in owner, seed or bump have different seed lists.
/// Whether their addresses differ too rests on the host's hash.
pub proof fn lemma_distinct_inputs_distinct_seeds(
    o1: [u8; 32],
    s1: [u8; 2],
    b1: u8,
    o2: [u8; 32],
    s2: [u8; 2],
    b2: u8,
)
    requires
        o1 != o2 || s1 != s2 || b1 != b2,
    ensures
        escrow_seeds(o1, s1, b1) != escrow_seeds(o2, s2, b2),
{
    if escrow_seeds(o1, s1, b1) == escrow_seeds(o2, s2, b2) {
        assert(escrow_seeds(o1, s1, b1)[1] == o1@);
        assert(escrow_seeds(o2, s2, b2)[1] == o2@);
        assert(escrow_seeds(o1, s1, b1)[2] == s1@);
        assert(escrow_seeds(o2, s2, b2)[2] == s2@);
        assert(escrow_seeds(o1, s1, b1)[3] == seq![b1]);
        assert(escrow_seeds(o2, s2, b2)[3] == seq![b2]);
        assert(seq![b1][0] == b1);
        assert(seq![b2][0] == b2);
        lemma_arrays_equal(o1, o2);
        lemma_arrays_equal(s1, s2);
    }
}

/// The product of two `u64` values, plus one more, fits in a `u128`.
proof fn lemma_product_fits_u128(a: u64, b: u64)
    ensures
        a * b + u64::MAX <= u128::MAX,
{
    assert(a * b <= u64::MAX * u64::MAX) by (nonlinear_arith)
        requires
            a <= u64::MAX,
            b <= u64::MAX,
            a >= 0,
            b >= 0,
    ;
}

/// A share `e / s` (at most the whole) of `d`, rounded down or up, is at
/// most `d`.
pub(crate) proof fn lemma_scaled_share_bounded(d: int, e: int, s: int)
    requires
        d >= 0,
        0 <= e <= s,
        s > 0,
    ensures
        0 <= (d * e) / s <= d,
        0 <= (d * e + s - 1) / s <= d,
{
    lemma_mul_inequality(e, s, d);
    assert(d * e <= d * s && 0 <= d * e) by (nonlinear_arith)
        requires
            e * d <= s * d,
            d >= 0,
            e >= 0,
    ;
    lemma_fundamental_div_mod_converse(d * s, s, d, 0);
    lemma_fundamental_div_mod_converse(d * s + s - 1, s, d, s - 1);
    lemma_div_is_ordered(d * e, d * s, s);
    lemma_div_is_ordered(d * e + s - 1, d * s + s - 1, s);
    lemma_div_is_ordered(0, d * e, s);
    lemma_div_is_ordered(0, d * e + s - 1, s);
    lemma_fundamental_div_mod_converse(0, s, 0, 0);
}

/// Dividing a negated amount rounds away from zero: `(-x) / s` is minus
/// `x / s` rounded up.
proof fn lemma_negated_quotient(x: int, s: int)
    requires
        x >= 0,
        s > 0,
    ensures
        (-x) / s == -((x + s - 1) / s),
{
    let q = (x + s - 1) / s;
    let r = (x + s - 1) % s;
    lemma_fundamental_div_mod(x + s - 1, s);
    lemma_mod_bound(x + s - 1, s);
    assert(-x == (-q) * s + (s - 1 - r)) by (nonlinear_arith)
        requires
            x + s - 1 == s * q + r,
    ;
    lemma_fundamental_div_mod_converse(-x, s, -q, s - 1 - r);
}

} // verus!
