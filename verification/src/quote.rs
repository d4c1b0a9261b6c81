//! What is asked of the quoting service and what it answers.

use vstd::prelude::*;
use crate::decimal::Decimal;
use crate::error::{accepted, named, rejected, DecodeError, ErrorKind};
use crate::json::{
    lemma_member_at, lemma_member_push, member, members_of, new_members, push_member, str_is,
    Json, JsonView, Members, Number,
};
use crate::pubkey::{is_zero_key, Pubkey};
use crate::wire::{
    amount_wire, decoded, find_optional, find_required, number_or, optional, optional_bool,
    optional_u16, optional_wire_bool, optional_wire_text, optional_wire_u16,
    optional_wire_u32, optional_wire_u8, optional_wire_usize, pubkey_wire, read_number_or,
    read_optional_bool, read_optional_u16, read_required_amount, read_required_pubkey,
    read_required_text, read_required_u16, read_required_u8, read_u64_or, required,
    required_amount, required_pubkey, required_text, required_u16, required_u8, u64_or,
    unsigned_wire, write_amount, write_optional_bool, write_optional_text,
    write_optional_u16, write_optional_u32, write_optional_u8, write_optional_usize,
    write_pubkey, write_text, write_unsigned,
};

verus! {

/// Whether the amount of a request is what goes in or what comes out.
#[derive(Clone, Copy, Debug, PartialEq, Eq, Structural)]
pub enum SwapMode {
    ExactIn,
    ExactOut,
}

/// The rejection of a text that is no swap mode's name.
#[derive(Clone, Debug, PartialEq, Eq)]
pub struct SwapModeError {
    /// The text that was rejected.
    pub text: String,
}

impl SwapModeError {
    /// The sentence for a reader: the rejected text, and that it is no
    /// swap mode.
    pub open spec fn sentence(self) -> Seq<char> {
        self.text@ + " is not a valid SwapMode"@
    }

    /// A sentence for a reader.
    pub fn message(&self) -> (text: String)
        ensures
            text@ == self.sentence(),
    {
        let mut text = self.text.clone();
        text.append(" is not a valid SwapMode");
        text
    }
}

impl Default for SwapMode {
    /// The amount is what goes in.
    fn default() -> (mode: SwapMode)
        ensures
            mode == SwapMode::ExactIn,
    {
        SwapMode::ExactIn
    }
}

impl SwapMode {
    /// The name of the mode.
    pub open spec fn name(self) -> Seq<char> {
        match self {
            SwapMode::ExactIn => "ExactIn"@,
            SwapMode::ExactOut => "ExactOut"@,
        }
    }

    /// The mode that a name stands for: the name has to match letter for
    /// letter.
    pub open spec fn of_name(name: Seq<char>) -> Result<SwapMode, DecodeError> {
        if name == "ExactIn"@ {
            Ok(SwapMode::ExactIn)
        } else if name == "ExactOut"@ {
            Ok(SwapMode::ExactOut)
        } else {
            Err(DecodeError::bare(ErrorKind::UnrecognizedVariant))
        }
    }

    /// The document of the mode: the string of its name.
    pub open spec fn wire(self) -> JsonView {
        JsonView::Str(self.name())
    }

    /// The mode that a document holds: a string that is the name of one.
    pub open spec fn of_wire(j: JsonView) -> Result<SwapMode, DecodeError> {
        match j {
            JsonView::Str(name) => SwapMode::of_name(name),
            _ => Err(DecodeError::bare(ErrorKind::UnexpectedType)),
        }
    }

    /// The two names differ, so each mode is read back from its name.
    pub proof fn lemma_round_trip(self)
        ensures
            SwapMode::of_name(self.name()) == accepted(self),
            SwapMode::of_wire(self.wire()) == accepted(self),
    {
        reveal_strlit("ExactIn");
        reveal_strlit("ExactOut");
        assert("ExactIn"@.len() == 7 && "ExactOut"@.len() == 8);
    }

    /// A name that is no mode's is rejected; none is taken in its place.
    pub proof fn lemma_unknown_name_rejected()
        ensures
            SwapMode::of_wire(JsonView::Str("Sideways"@))
                == rejected::<SwapMode>(DecodeError::bare(ErrorKind::UnrecognizedVariant)),
    {
        reveal_strlit("ExactIn");
        reveal_strlit("ExactOut");
        reveal_strlit("Sideways");
        assert("ExactIn"@.len() == 7 && "Sideways"@.len() == 8);
        assert("ExactOut"@[0] != "Sideways"@[0]);
    }

    /// Reads a mode from its name. A text that is no mode's name is
    /// rejected, and the rejection holds the text.
    pub fn from_str(s: &str) -> (r: Result<SwapMode, SwapModeError>)
        ensures
            match r {
                Ok(mode) => SwapMode::of_name(s@) == accepted(mode),
                Err(e) => SwapMode::of_name(s@) is Err && e.text@ == s@,
            },
    {
        if str_is(s, "ExactIn") {
            Ok(SwapMode::ExactIn)
        } else if str_is(s, "ExactOut") {
            Ok(SwapMode::ExactOut)
        } else {
            Err(SwapModeError { text: s.to_owned() })
        }
    }

    /// Writes the mode.
    pub fn serialize(&self) -> (j: Json)
        ensures
            j@ == self.wire(),
    {
        match self {
            SwapMode::ExactIn => Json::string("ExactIn"),
            SwapMode::ExactOut => Json::string("ExactOut"),
        }
    }

    /// Reads a mode.
    pub fn deserialize(j: &Json) -> (r: Result<SwapMode, DecodeError>)
        ensures
            r == SwapMode::of_wire(j@),
    {
        match j {
            Json::Str(name) => match SwapMode::from_str(name.as_str()) {
                Ok(mode) => Ok(mode),
                Err(_) => Err(DecodeError::new(ErrorKind::UnrecognizedVariant)),
            },
            _ => Err(DecodeError::new(ErrorKind::UnexpectedType)),
        }
    }
}

/// What is written for a mode that may be absent: null where it is.
pub open spec fn optional_wire_mode(mode: Option<SwapMode>) -> JsonView {
    match mode {
        Some(mode) => mode.wire(),
        None => JsonView::Null,
    }
}

/// Writes a mode that may be absent.
fn write_optional_mode(mode: &Option<SwapMode>) -> (j: Json)
    ensures
        j@ == optional_wire_mode(*mode),
{
    match mode {
        Some(mode) => mode.serialize(),
        None => Json::Null,
    }
}

/// The mode under the member `key`, which has to be present.
pub open spec fn required_mode(members: Members, key: &'static str) -> Result<
    SwapMode,
    DecodeError,
> {
    match required(members, key) {
        Ok(value) => match SwapMode::of_wire(value) {
            Ok(mode) => Ok(mode),
            Err(e) => Err(e.within(key)),
        },
        Err(e) => Err(e),
    }
}

/// Reads the mode under the member `key`, which has to be present.
fn read_required_mode(members: &Vec<(String, Json)>, key: &'static str) -> (r: Result<
    SwapMode,
    DecodeError,
>)
    ensures
        r == required_mode(members_of(members@), key),
{
    match find_required(members, key) {
        Ok(value) => match SwapMode::deserialize(value) {
            Ok(mode) => Ok(mode),
            Err(e) => Err(e.in_field(key)),
        },
        Err(e) => Err(e),
    }
}

/// One hop of a route: the market, what goes in and comes out, and the fee.
#[derive(Clone, Debug, PartialEq)]
pub struct SwapInfo {
    pub amm_key: Pubkey,
    pub label: String,
    pub input_mint: Pubkey,
    pub output_mint: Pubkey,
    /// An estimate of what goes into the market.
    pub in_amount: u64,
    /// An estimate of what comes out of the market.
    pub out_amount: u64,
    pub fee_amount: u64,
    pub fee_mint: Pubkey,
}

/// The mathematical value of a [`SwapInfo`].
pub struct SwapInfoView {
    pub amm_key: Pubkey,
    pub label: Seq<char>,
    pub input_mint: Pubkey,
    pub output_mint: Pubkey,
    pub in_amount: u64,
    pub out_amount: u64,
    pub fee_amount: u64,
    pub fee_mint: Pubkey,
}

impl Default for SwapInfo {
    /// The hop with zero keys, no label and zero amounts.
    fn default() -> (info: SwapInfo)
        ensures
            is_zero_key(info.amm_key),
            info.label@.len() == 0,
            is_zero_key(info.input_mint),
            is_zero_key(info.output_mint),
            info.in_amount == 0,
            info.out_amount == 0,
            info.fee_amount == 0,
            is_zero_key(info.fee_mint),
    {
        SwapInfo {
            amm_key: Pubkey::default(),
            label: String::new(),
            input_mint: Pubkey::default(),
            output_mint: Pubkey::default(),
            in_amount: 0,
            out_amount: 0,
            fee_amount: 0,
            fee_mint: Pubkey::default(),
        }
    }
}

impl View for SwapInfo {
    type V = SwapInfoView;

    open spec fn view(&self) -> SwapInfoView {
        SwapInfoView {
            amm_key: self.amm_key,
            label: self.label@,
            input_mint: self.input_mint,
            output_mint: self.output_mint,
            in_amount: self.in_amount,
            out_amount: self.out_amount,
            fee_amount: self.fee_amount,
            fee_mint: self.fee_mint,
        }
    }
}

impl SwapInfoView {
    /// The document of a hop: an object with every member, identifiers and
    /// amounts as strings.
    pub open spec fn wire(self) -> JsonView {
        JsonView::Object(
            Members::empty()
                .push(("ammKey"@, pubkey_wire(self.amm_key)))
                .push(("label"@, JsonView::Str(self.label)))
                .push(("inputMint"@, pubkey_wire(self.input_mint)))
                .push(("outputMint"@, pubkey_wire(self.output_mint)))
                .push(("inAmount"@, amount_wire(self.in_amount)))
                .push(("outAmount"@, amount_wire(self.out_amount)))
                .push(("feeAmount"@, amount_wire(self.fee_amount)))
                .push(("feeMint"@, pubkey_wire(self.fee_mint))),
        )
    }

    /// The hop that the members of an object give: every member has to be
    /// present; of the members that are rejected, the first in the order of
    /// the fields decides.
    pub open spec fn of_members(members: Members) -> Result<SwapInfoView, DecodeError> {
        let amm_key = required_pubkey(members, "ammKey");
        let label = required_text(members, "label");
        let input_mint = required_pubkey(members, "inputMint");
        let output_mint = required_pubkey(members, "outputMint");
        let in_amount = required_amount(members, "inAmount");
        let out_amount = required_amount(members, "outAmount");
        let fee_amount = required_amount(members, "feeAmount");
        let fee_mint = required_pubkey(members, "feeMint");
        if amm_key is Err {
            Err(amm_key->Err_0)
        } else if label is Err {
            Err(label->Err_0)
        } else if input_mint is Err {
            Err(input_mint->Err_0)
        } else if output_mint is Err {
            Err(output_mint->Err_0)
        } else if in_amount is Err {
            Err(in_amount->Err_0)
        } else if out_amount is Err {
            Err(out_amount->Err_0)
        } else if fee_amount is Err {
            Err(fee_amount->Err_0)
        } else if fee_mint is Err {
            Err(fee_mint->Err_0)
        } else {
            Ok(
                SwapInfoView {
                    amm_key: amm_key->Ok_0,
                    label: label->Ok_0,
                    input_mint: input_mint->Ok_0,
                    output_mint: output_mint->Ok_0,
                    in_amount: in_amount->Ok_0,
                    out_amount: out_amount->Ok_0,
                    fee_amount: fee_amount->Ok_0,
                    fee_mint: fee_mint->Ok_0,
                },
            )
        }
    }

    /// What a document holds: an object, read by its members.
    pub open spec fn of_wire(j: JsonView) -> Result<SwapInfoView, DecodeError> {
        match j {
            JsonView::Object(members) => SwapInfoView::of_members(members),
            _ => Err(DecodeError::bare(ErrorKind::UnexpectedType)),
        }
    }
}

impl SwapInfoView {
    /// Whether each identifier of the hop is read back from its own text.
    pub open spec fn identifiers_round_trip(self) -> bool {
        &&& Pubkey::of_text(self.amm_key.text()) == Some(self.amm_key)
        &&& Pubkey::of_text(self.input_mint.text()) == Some(self.input_mint)
        &&& Pubkey::of_text(self.output_mint.text()) == Some(self.output_mint)
        &&& Pubkey::of_text(self.fee_mint.text()) == Some(self.fee_mint)
    }

    /// The document of a hop loses nothing: where the identifiers are read
    /// back from their texts, the hop is read back from its document.
    pub proof fn lemma_round_trip(self)
        ensures
            self.identifiers_round_trip() ==> SwapInfoView::of_wire(self.wire()) == accepted(self),
    {
        reveal_strlit("ammKey");
        reveal_strlit("label");
        reveal_strlit("inputMint");
        reveal_strlit("outputMint");
        reveal_strlit("inAmount");
        reveal_strlit("outAmount");
        reveal_strlit("feeAmount");
        reveal_strlit("feeMint");
        let members = self.wire()->Object_0;
        assert("ammKey"@.len() == 6 && "label"@.len() == 5 && "inputMint"@.len() == 9
            && "outputMint"@.len() == 10 && "inAmount"@.len() == 8 && "outAmount"@.len() == 9
            && "feeAmount"@.len() == 9 && "feeMint"@.len() == 7);
        assert("inputMint"@[0] != "outAmount"@[0] && "inputMint"@[0] != "feeAmount"@[0]
            && "outAmount"@[0] != "feeAmount"@[0]);
        lemma_member_at(members, "ammKey"@, 0);
        lemma_member_at(members, "label"@, 1);
        lemma_member_at(members, "inputMint"@, 2);
        lemma_member_at(members, "outputMint"@, 3);
        lemma_member_at(members, "inAmount"@, 4);
        lemma_member_at(members, "outAmount"@, 5);
        lemma_member_at(members, "feeAmount"@, 6);
        lemma_member_at(members, "feeMint"@, 7);
        crate::wire::lemma_amount_wire_round_trip(self.in_amount);
        crate::wire::lemma_amount_wire_round_trip(self.out_amount);
        crate::wire::lemma_amount_wire_round_trip(self.fee_amount);
    }
}

impl SwapInfo {
    /// Checks that each identifier of the hop is read back from its own
    /// text.
    pub fn identifiers_round_trip(&self) -> (ok: bool)
        ensures
            ok == self@.identifiers_round_trip(),
    {
        self.amm_key.round_trips() && self.input_mint.round_trips()
            && self.output_mint.round_trips() && self.fee_mint.round_trips()
    }

    /// Writes the hop. Where the identifiers are read back from their texts,
    /// the hop is read back from this document.
    pub fn serialize(&self) -> (j: Json)
        ensures
            j@ == self@.wire(),
            self@.identifiers_round_trip() ==> SwapInfoView::of_wire(j@) == accepted(self@),
    {
        proof {
            self@.lemma_round_trip();
        }
        let mut members = new_members();
        push_member(&mut members, "ammKey", write_pubkey(&self.amm_key));
        push_member(&mut members, "label", write_text(&self.label));
        push_member(&mut members, "inputMint", write_pubkey(&self.input_mint));
        push_member(&mut members, "outputMint", write_pubkey(&self.output_mint));
        push_member(&mut members, "inAmount", write_amount(self.in_amount));
        push_member(&mut members, "outAmount", write_amount(self.out_amount));
        push_member(&mut members, "feeAmount", write_amount(self.fee_amount));
        push_member(&mut members, "feeMint", write_pubkey(&self.fee_mint));
        Json::Object(members)
    }

    /// Reads a value.
    pub fn deserialize(j: &Json) -> (r: Result<SwapInfo, DecodeError>)
        ensures
            decoded(r, SwapInfoView::of_wire(j@)),
    {
        match j {
            Json::Object(members) => {
                let amm_key = read_required_pubkey(members, "ammKey")?;
                let label = read_required_text(members, "label")?;
                let input_mint = read_required_pubkey(members, "inputMint")?;
                let output_mint = read_required_pubkey(members, "outputMint")?;
                let in_amount = read_required_amount(members, "inAmount")?;
                let out_amount = read_required_amount(members, "outAmount")?;
                let fee_amount = read_required_amount(members, "feeAmount")?;
                let fee_mint = read_required_pubkey(members, "feeMint")?;
                Ok(
                    SwapInfo {
                        amm_key,
                        label,
                        input_mint,
                        output_mint,
                        in_amount,
                        out_amount,
                        fee_amount,
                        fee_mint,
                    },
                )
            },
            _ => Err(DecodeError::new(ErrorKind::UnexpectedType)),
        }
    }
}

/// The fee that the platform takes: the amount and the rate in basis points.
#[derive(Clone, Copy, Debug, PartialEq, Eq, Structural)]
pub struct PlatformFee {
    pub amount: u64,
    pub fee_bps: u8,
}

impl PlatformFee {
    /// The document of the fee: the amount as a string, the rate as a number.
    pub open spec fn wire(self) -> JsonView {
        JsonView::Object(
            Members::empty()
                .push(("amount"@, amount_wire(self.amount)))
                .push(("feeBps"@, unsigned_wire(self.fee_bps as u64))),
        )
    }

    /// The fee that the members of an object give: both have to be present.
    pub open spec fn of_members(members: Members) -> Result<PlatformFee, DecodeError> {
        let amount = required_amount(members, "amount");
        let fee_bps = required_u8(members, "feeBps");
        if amount is Err {
            Err(amount->Err_0)
        } else if fee_bps is Err {
            Err(fee_bps->Err_0)
        } else {
            Ok(
                PlatformFee {
                    amount: amount->Ok_0,
                    fee_bps: fee_bps->Ok_0,
                },
            )
        }
    }

    /// What a document holds: an object, read by its members.
    pub open spec fn of_wire(j: JsonView) -> Result<PlatformFee, DecodeError> {
        match j {
            JsonView::Object(members) => PlatformFee::of_members(members),
            _ => Err(DecodeError::bare(ErrorKind::UnexpectedType)),
        }
    }
}

impl PlatformFee {
    /// Writes the value.
    pub fn serialize(&self) -> (j: Json)
        ensures
            j@ == self.wire(),
    {
        let mut members = new_members();
        push_member(&mut members, "amount", write_amount(self.amount));
        push_member(&mut members, "feeBps", write_unsigned(self.fee_bps as u64));
        Json::Object(members)
    }

    /// Reads a value.
    pub fn deserialize(j: &Json) -> (r: Result<PlatformFee, DecodeError>)
        ensures
            r == PlatformFee::of_wire(j@),
    {
        match j {
            Json::Object(members) => {
                let amount = read_required_amount(members, "amount")?;
                let fee_bps = read_required_u8(members, "feeBps")?;
                Ok(
                    PlatformFee {
                        amount,
                        fee_bps,
                    },
                )
            },
            _ => Err(DecodeError::new(ErrorKind::UnexpectedType)),
        }
    }
}

impl PlatformFee {
    /// Every fee is read back from what is written for it.
    pub proof fn lemma_round_trip(self)
        ensures
            PlatformFee::of_wire(self.wire()) == accepted(self),
    {
        reveal_strlit("amount");
        reveal_strlit("feeBps");
        assert("amount"@[0] != "feeBps"@[0]);
        let members = self.wire()->Object_0;
        lemma_member_at(members, "amount"@, 0);
        lemma_member_at(members, "feeBps"@, 1);
        crate::wire::lemma_amount_wire_round_trip(self.amount);
    }
}

/// The platform fee under the member `key`; none where the member is absent
/// or null.
pub open spec fn optional_platform_fee(members: Members, key: &'static str) -> Result<
    Option<PlatformFee>,
    DecodeError,
> {
    match optional(members, key) {
        Some(value) => match PlatformFee::of_wire(value) {
            Ok(fee) => Ok(Some(fee)),
            Err(e) => Err(e.within(key)),
        },
        None => Ok(None),
    }
}

/// What is written for a platform fee that may be absent: null where it is.
pub open spec fn optional_wire_platform_fee(fee: Option<PlatformFee>) -> JsonView {
    match fee {
        Some(fee) => fee.wire(),
        None => JsonView::Null,
    }
}

/// Reads the platform fee under the member `key`; none where the member is
/// absent or null.
fn read_optional_platform_fee(members: &Vec<(String, Json)>, key: &'static str) -> (r: Result<
    Option<PlatformFee>,
    DecodeError,
>)
    ensures
        r == optional_platform_fee(members_of(members@), key),
{
    match find_optional(members, key) {
        Some(value) => match PlatformFee::deserialize(value) {
            Ok(fee) => Ok(Some(fee)),
            Err(e) => Err(e.in_field(key)),
        },
        None => Ok(None),
    }
}

/// Writes a platform fee that may be absent.
fn write_optional_platform_fee(fee: &Option<PlatformFee>) -> (j: Json)
    ensures
        j@ == optional_wire_platform_fee(*fee),
{
    match fee {
        Some(fee) => fee.serialize(),
        None => Json::Null,
    }
}

/// The decimal number that a document holds: a string that writes it, or an
/// integer number, which stands for itself. A number of another form is not
/// taken.
pub open spec fn decimal_of(j: JsonView) -> Result<Decimal, ErrorKind> {
    match j {
        JsonView::Str(text) => match Decimal::of_text(text) {
            Some(number) => Ok(number),
            None => Err(ErrorKind::MalformedDecimal),
        },
        JsonView::Number(Number::Unsigned(n)) => Ok(Decimal::of_parts(n as i128, 0)),
        JsonView::Number(Number::Negative(n)) => Ok(Decimal::of_parts(n as i128, 0)),
        _ => Err(ErrorKind::UnexpectedType),
    }
}

/// The decimal number under the member `key`, which has to be present.
pub open spec fn required_decimal(members: Members, key: &'static str) -> Result<
    Decimal,
    DecodeError,
> {
    match required(members, key) {
        Ok(value) => named(decimal_of(value), key),
        Err(e) => Err(e),
    }
}

/// Reads the decimal number under the member `key`, which has to be present.
fn read_required_decimal(members: &Vec<(String, Json)>, key: &'static str) -> (r: Result<
    Decimal,
    DecodeError,
>)
    ensures
        r == required_decimal(members_of(members@), key),
{
    match find_required(members, key)? {
        Json::Str(text) => match Decimal::from_str(text.as_str()) {
            Some(number) => Ok(number),
            None => Err(DecodeError { kind: ErrorKind::MalformedDecimal, field: key }),
        },
        Json::Number(Number::Unsigned(n)) => Ok(Decimal::from_u64(*n)),
        Json::Number(Number::Negative(n)) => Ok(Decimal::from_i64(*n)),
        _ => Err(DecodeError { kind: ErrorKind::UnexpectedType, field: key }),
    }
}

/// The answer of the quoting service.
#[derive(Clone, Debug, PartialEq)]
pub struct QuoteResponse {
    pub input_mint: Pubkey,
    pub in_amount: u64,
    pub output_mint: Pubkey,
    pub out_amount: u64,
    /// Carried as it comes; building a transaction does not use it.
    pub other_amount_threshold: u64,
    pub swap_mode: SwapMode,
    pub slippage_bps: u16,
    pub computed_auto_slippage: Option<u16>,
    pub uses_quote_minimizing_slippage: Option<bool>,
    pub platform_fee: Option<PlatformFee>,
    pub price_impact_pct: Decimal,
    /// The route, as the document that the service gave for it.
    pub route_plan: Json,
    pub context_slot: u64,
    /// The time the service took, as the number that it wrote.
    pub time_taken: Number,
}

/// The mathematical value of a [`QuoteResponse`].
pub struct QuoteResponseView {
    pub input_mint: Pubkey,
    pub in_amount: u64,
    pub output_mint: Pubkey,
    pub out_amount: u64,
    pub other_amount_threshold: u64,
    pub swap_mode: SwapMode,
    pub slippage_bps: u16,
    pub computed_auto_slippage: Option<u16>,
    pub uses_quote_minimizing_slippage: Option<bool>,
    pub platform_fee: Option<PlatformFee>,
    pub price_impact_pct: Decimal,
    pub route_plan: JsonView,
    pub context_slot: u64,
    pub time_taken: Number,
}

impl View for QuoteResponse {
    type V = QuoteResponseView;

    open spec fn view(&self) -> QuoteResponseView {
        QuoteResponseView {
            input_mint: self.input_mint,
            in_amount: self.in_amount,
            output_mint: self.output_mint,
            out_amount: self.out_amount,
            other_amount_threshold: self.other_amount_threshold,
            swap_mode: self.swap_mode,
            slippage_bps: self.slippage_bps,
            computed_auto_slippage: self.computed_auto_slippage,
            uses_quote_minimizing_slippage: self.uses_quote_minimizing_slippage,
            platform_fee: self.platform_fee,
            price_impact_pct: self.price_impact_pct,
            route_plan: self.route_plan@,
            context_slot: self.context_slot,
            time_taken: self.time_taken,
        }
    }
}

impl QuoteResponseView {
    /// The members of the document: every field in its order, but the two
    /// optional slippage fields only where they are set.
    pub open spec fn wire_members(self) -> Members {
        let head = Members::empty()
            .push(("inputMint"@, pubkey_wire(self.input_mint)))
            .push(("inAmount"@, amount_wire(self.in_amount)))
            .push(("outputMint"@, pubkey_wire(self.output_mint)))
            .push(("outAmount"@, amount_wire(self.out_amount)))
            .push(("otherAmountThreshold"@, amount_wire(self.other_amount_threshold)))
            .push(("swapMode"@, self.swap_mode.wire()))
            .push(("slippageBps"@, unsigned_wire(self.slippage_bps as u64)));
        let with_computed = match self.computed_auto_slippage {
            Some(bps) => head.push(("computedAutoSlippage"@, unsigned_wire(bps as u64))),
            None => head,
        };
        let with_uses = match self.uses_quote_minimizing_slippage {
            Some(uses) => with_computed.push(("usesQuoteMinimizingSlippage"@,
                JsonView::Bool(uses))),
            None => with_computed,
        };
        with_uses
            .push(("platformFee"@, optional_wire_platform_fee(self.platform_fee)))
            .push(("priceImpactPct"@, JsonView::Str(self.price_impact_pct.text())))
            .push(("routePlan"@, self.route_plan))
            .push(("contextSlot"@, unsigned_wire(self.context_slot)))
            .push(("timeTaken"@, JsonView::Number(self.time_taken)))
    }
}

impl QuoteResponseView {
    /// The document of the answer.
    pub open spec fn wire(self) -> JsonView {
        JsonView::Object(self.wire_members())
    }

    /// The answer that the members of an object give. The slot is 0 and the
    /// time the number zero where their members are absent; of the members
    /// that are rejected, the first in the order of the fields decides.
    pub open spec fn of_members(members: Members) -> Result<QuoteResponseView, DecodeError> {
        let input_mint = required_pubkey(members, "inputMint");
        let in_amount = required_amount(members, "inAmount");
        let output_mint = required_pubkey(members, "outputMint");
        let out_amount = required_amount(members, "outAmount");
        let other_amount_threshold = required_amount(members, "otherAmountThreshold");
        let swap_mode = required_mode(members, "swapMode");
        let slippage_bps = required_u16(members, "slippageBps");
        let computed_auto_slippage = optional_u16(members, "computedAutoSlippage");
        let uses_quote_minimizing_slippage = optional_bool(members, "usesQuoteMinimizingSlippage");
        let platform_fee = optional_platform_fee(members, "platformFee");
        let price_impact_pct = required_decimal(members, "priceImpactPct");
        let route_plan = required(members, "routePlan");
        let context_slot = u64_or(members, "contextSlot", 0);
        let time_taken = number_or(members, "timeTaken", Number::Binary64(0));
        if input_mint is Err {
            Err(input_mint->Err_0)
        } else if in_amount is Err {
            Err(in_amount->Err_0)
        } else if output_mint is Err {
            Err(output_mint->Err_0)
        } else if out_amount is Err {
            Err(out_amount->Err_0)
        } else if other_amount_threshold is Err {
            Err(other_amount_threshold->Err_0)
        } else if swap_mode is Err {
            Err(swap_mode->Err_0)
        } else if slippage_bps is Err {
            Err(slippage_bps->Err_0)
        } else if computed_auto_slippage is Err {
            Err(computed_auto_slippage->Err_0)
        } else if uses_quote_minimizing_slippage is Err {
            Err(uses_quote_minimizing_slippage->Err_0)
        } else if platform_fee is Err {
            Err(platform_fee->Err_0)
        } else if price_impact_pct is Err {
            Err(price_impact_pct->Err_0)
        } else if route_plan is Err {
            Err(route_plan->Err_0)
        } else if context_slot is Err {
            Err(context_slot->Err_0)
        } else if time_taken is Err {
            Err(time_taken->Err_0)
        } else {
            Ok(
                QuoteResponseView {
                    input_mint: input_mint->Ok_0,
                    in_amount: in_amount->Ok_0,
                    output_mint: output_mint->Ok_0,
                    out_amount: out_amount->Ok_0,
                    other_amount_threshold: other_amount_threshold->Ok_0,
                    swap_mode: swap_mode->Ok_0,
                    slippage_bps: slippage_bps->Ok_0,
                    computed_auto_slippage: computed_auto_slippage->Ok_0,
                    uses_quote_minimizing_slippage: uses_quote_minimizing_slippage->Ok_0,
                    platform_fee: platform_fee->Ok_0,
                    price_impact_pct: price_impact_pct->Ok_0,
                    route_plan: route_plan->Ok_0,
                    context_slot: context_slot->Ok_0,
                    time_taken: time_taken->Ok_0,
                },
            )
        }
    }

    /// What a document holds: an object, read by its members.
    pub open spec fn of_wire(j: JsonView) -> Result<QuoteResponseView, DecodeError> {
        match j {
            JsonView::Object(members) => QuoteResponseView::of_members(members),
            _ => Err(DecodeError::bare(ErrorKind::UnexpectedType)),
        }
    }
}

impl QuoteResponseView {
    /// Whether what stands inside the answer is read back from what is
    /// written for it: each identifier and the price impact from its text.
    pub open spec fn parts_round_trip(self) -> bool {
        &&& Pubkey::of_text(self.input_mint.text()) == Some(self.input_mint)
        &&& Pubkey::of_text(self.output_mint.text()) == Some(self.output_mint)
        &&& Decimal::of_text(self.price_impact_pct.text()) == Some(self.price_impact_pct)
    }

    /// Each member of the document of an answer is found under its key, and
    /// nothing is found under the key of an optional slippage field that is
    /// not set.
    pub proof fn lemma_wire_members(self)
        ensures
            member(self.wire_members(), "inputMint"@) == Some(pubkey_wire(self.input_mint)),
            member(self.wire_members(), "inAmount"@) == Some(amount_wire(self.in_amount)),
            member(self.wire_members(), "outputMint"@) == Some(pubkey_wire(self.output_mint)),
            member(self.wire_members(), "outAmount"@) == Some(amount_wire(self.out_amount)),
            member(self.wire_members(), "otherAmountThreshold"@)
                == Some(amount_wire(self.other_amount_threshold)),
            member(self.wire_members(), "swapMode"@) == Some(self.swap_mode.wire()),
            member(self.wire_members(), "slippageBps"@)
                == Some(unsigned_wire(self.slippage_bps as u64)),
            member(self.wire_members(), "computedAutoSlippage"@)
                == (match self.computed_auto_slippage {
                Some(bps) => Some(unsigned_wire(bps as u64)),
                None => None,
            }),
            member(self.wire_members(), "usesQuoteMinimizingSlippage"@)
                == (match self.uses_quote_minimizing_slippage {
                Some(uses) => Some(JsonView::Bool(uses)),
                None => None,
            }),
            member(self.wire_members(), "platformFee"@)
                == Some(optional_wire_platform_fee(self.platform_fee)),
            member(self.wire_members(), "priceImpactPct"@)
                == Some(JsonView::Str(self.price_impact_pct.text())),
            member(self.wire_members(), "routePlan"@) == Some(self.route_plan),
            member(self.wire_members(), "contextSlot"@) == Some(unsigned_wire(self.context_slot)),
            member(self.wire_members(), "timeTaken"@) == Some(JsonView::Number(self.time_taken)),
    {
        reveal_strlit("inputMint");
        reveal_strlit("inAmount");
        reveal_strlit("outputMint");
        reveal_strlit("outAmount");
        reveal_strlit("otherAmountThreshold");
        reveal_strlit("swapMode");
        reveal_strlit("slippageBps");
        reveal_strlit("computedAutoSlippage");
        reveal_strlit("usesQuoteMinimizingSlippage");
        reveal_strlit("platformFee");
        reveal_strlit("priceImpactPct");
        reveal_strlit("routePlan");
        reveal_strlit("contextSlot");
        reveal_strlit("timeTaken");
        assert("inputMint"@.len() == 9 && "inAmount"@.len() == 8 && "outputMint"@.len() == 10
            && "outAmount"@.len() == 9 && "otherAmountThreshold"@.len() == 20 && "swapMode"@.len()
            == 8 && "slippageBps"@.len() == 11 && "computedAutoSlippage"@.len() == 20
            && "usesQuoteMinimizingSlippage"@.len() == 27 && "platformFee"@.len() == 11
            && "priceImpactPct"@.len() == 14 && "routePlan"@.len() == 9 && "contextSlot"@.len()
            == 11 && "timeTaken"@.len() == 9);
        assert("inputMint"@[0] != "outAmount"@[0] && "inputMint"@[0] != "routePlan"@[0]
            && "inputMint"@[0] != "timeTaken"@[0] && "outAmount"@[0] != "routePlan"@[0]
            && "outAmount"@[0] != "timeTaken"@[0] && "routePlan"@[0] != "timeTaken"@[0]);
        assert("inAmount"@[0] != "swapMode"@[0]);
        assert("otherAmountThreshold"@[0] != "computedAutoSlippage"@[0]);
        assert("slippageBps"@[0] != "platformFee"@[0] && "slippageBps"@[0] != "contextSlot"@[0]
            && "platformFee"@[0] != "contextSlot"@[0]);
        let m0 = Members::empty();
        lemma_member_push(m0, "inputMint"@, pubkey_wire(self.input_mint));
        let m1 = m0.push(("inputMint"@, pubkey_wire(self.input_mint)));
        lemma_member_push(m1, "inAmount"@, amount_wire(self.in_amount));
        let m2 = m1.push(("inAmount"@, amount_wire(self.in_amount)));
        lemma_member_push(m2, "outputMint"@, pubkey_wire(self.output_mint));
        let m3 = m2.push(("outputMint"@, pubkey_wire(self.output_mint)));
        lemma_member_push(m3, "outAmount"@, amount_wire(self.out_amount));
        let m4 = m3.push(("outAmount"@, amount_wire(self.out_amount)));
        lemma_member_push(m4, "otherAmountThreshold"@, amount_wire(self.other_amount_threshold));
        let m5 = m4.push(("otherAmountThreshold"@, amount_wire(self.other_amount_threshold)));
        lemma_member_push(m5, "swapMode"@, self.swap_mode.wire());
        let m6 = m5.push(("swapMode"@, self.swap_mode.wire()));
        lemma_member_push(m6, "slippageBps"@, unsigned_wire(self.slippage_bps as u64));
        let m7 = m6.push(("slippageBps"@, unsigned_wire(self.slippage_bps as u64)));
        let with_computed = match self.computed_auto_slippage {
            Some(bps) => {
                lemma_member_push(m7, "computedAutoSlippage"@, unsigned_wire(bps as u64));
                m7.push(("computedAutoSlippage"@, unsigned_wire(bps as u64)))
            },
            None => m7,
        };
        let with_uses = match self.uses_quote_minimizing_slippage {
            Some(uses) => {
                lemma_member_push(with_computed, "usesQuoteMinimizingSlippage"@,
                    JsonView::Bool(uses));
                with_computed.push(("usesQuoteMinimizingSlippage"@, JsonView::Bool(uses)))
            },
            None => with_computed,
        };
        let t0 = with_uses;
        lemma_member_push(t0, "platformFee"@, optional_wire_platform_fee(self.platform_fee));
        let t1 = t0.push(("platformFee"@, optional_wire_platform_fee(self.platform_fee)));
        lemma_member_push(t1, "priceImpactPct"@, JsonView::Str(self.price_impact_pct.text()));
        let t2 = t1.push(("priceImpactPct"@, JsonView::Str(self.price_impact_pct.text())));
        lemma_member_push(t2, "routePlan"@, self.route_plan);
        let t3 = t2.push(("routePlan"@, self.route_plan));
        lemma_member_push(t3, "contextSlot"@, unsigned_wire(self.context_slot));
        let t4 = t3.push(("contextSlot"@, unsigned_wire(self.context_slot)));
        lemma_member_push(t4, "timeTaken"@, JsonView::Number(self.time_taken));
        let t5 = t4.push(("timeTaken"@, JsonView::Number(self.time_taken)));
        assert(self.wire_members() == t5);
    }

    /// The document of an answer loses nothing: where the parts are read
    /// back from their texts, the answer is read back from its document.
    pub proof fn lemma_round_trip(self)
        ensures
            self.parts_round_trip() ==> QuoteResponseView::of_wire(self.wire()) == accepted(self),
    {
        if self.parts_round_trip() {
            let members = self.wire_members();
            self.lemma_wire_members();
            self.swap_mode.lemma_round_trip();
            crate::wire::lemma_amount_wire_round_trip(self.in_amount);
            crate::wire::lemma_amount_wire_round_trip(self.out_amount);
            crate::wire::lemma_amount_wire_round_trip(self.other_amount_threshold);
            if let Some(fee) = self.platform_fee {
                fee.lemma_round_trip();
            }
            assert(required_pubkey(members, "inputMint") == accepted(self.input_mint));
            assert(required_amount(members, "inAmount") == accepted(self.in_amount));
            assert(required_pubkey(members, "outputMint") == accepted(self.output_mint));
            assert(required_amount(members, "outAmount") == accepted(self.out_amount));
            assert(required_amount(members, "otherAmountThreshold")
                == accepted(self.other_amount_threshold));
            assert(required_mode(members, "swapMode") == accepted(self.swap_mode));
            assert(required_u16(members, "slippageBps") == accepted(self.slippage_bps));
            assert(optional_u16(members, "computedAutoSlippage")
                == accepted(self.computed_auto_slippage));
            assert(optional_bool(members, "usesQuoteMinimizingSlippage")
                == accepted(self.uses_quote_minimizing_slippage));
            assert(optional_platform_fee(members, "platformFee") == accepted(self.platform_fee));
            assert(required_decimal(members, "priceImpactPct") == accepted(self.price_impact_pct));
            assert(required(members, "routePlan") == accepted(self.route_plan));
            assert(u64_or(members, "contextSlot", 0) == accepted(self.context_slot));
            assert(number_or(members, "timeTaken", Number::Binary64(0))
                == accepted(self.time_taken));
        }
    }
}

impl QuoteResponse {
    /// Checks that the identifiers and the price impact are read back from
    /// their own texts.
    pub fn parts_round_trip(&self) -> (ok: bool)
        ensures
            ok == self@.parts_round_trip(),
    {
        self.input_mint.round_trips() && self.output_mint.round_trips()
            && self.price_impact_pct.round_trips()
    }

    /// Writes the answer. Where the parts are read back from their texts,
    /// the answer is read back from this document.
    pub fn serialize(&self) -> (j: Json)
        ensures
            j@ == self@.wire(),
            self@.parts_round_trip() ==> QuoteResponseView::of_wire(j@) == accepted(self@),
    {
        proof {
            self@.lemma_round_trip();
        }
        let mut members = new_members();
        push_member(&mut members, "inputMint", write_pubkey(&self.input_mint));
        push_member(&mut members, "inAmount", write_amount(self.in_amount));
        push_member(&mut members, "outputMint", write_pubkey(&self.output_mint));
        push_member(&mut members, "outAmount", write_amount(self.out_amount));
        push_member(&mut members, "otherAmountThreshold",
            write_amount(self.other_amount_threshold));
        push_member(&mut members, "swapMode", self.swap_mode.serialize());
        push_member(&mut members, "slippageBps", write_unsigned(self.slippage_bps as u64));
        if let Some(value) = self.computed_auto_slippage {
            push_member(&mut members, "computedAutoSlippage", write_unsigned(value as u64));
        }
        if let Some(value) = self.uses_quote_minimizing_slippage {
            push_member(&mut members, "usesQuoteMinimizingSlippage", Json::Bool(value));
        }
        push_member(&mut members, "platformFee", write_optional_platform_fee(&self.platform_fee));
        push_member(&mut members, "priceImpactPct", Json::Str(self.price_impact_pct.to_string()));
        push_member(&mut members, "routePlan", self.route_plan.clone());
        push_member(&mut members, "contextSlot", write_unsigned(self.context_slot));
        push_member(&mut members, "timeTaken", Json::Number(self.time_taken));
        Json::Object(members)
    }

    /// Reads a value.
    pub fn deserialize(j: &Json) -> (r: Result<QuoteResponse, DecodeError>)
        ensures
            decoded(r, QuoteResponseView::of_wire(j@)),
    {
        match j {
            Json::Object(members) => {
                let input_mint = read_required_pubkey(members, "inputMint")?;
                let in_amount = read_required_amount(members, "inAmount")?;
                let output_mint = read_required_pubkey(members, "outputMint")?;
                let out_amount = read_required_amount(members, "outAmount")?;
                let other_amount_threshold = read_required_amount(members, "otherAmountThreshold")?;
                let swap_mode = read_required_mode(members, "swapMode")?;
                let slippage_bps = read_required_u16(members, "slippageBps")?;
                let computed_auto_slippage = read_optional_u16(members, "computedAutoSlippage")?;
                let uses_quote_minimizing_slippage = read_optional_bool(members,
                    "usesQuoteMinimizingSlippage")?;
                let platform_fee = read_optional_platform_fee(members, "platformFee")?;
                let price_impact_pct = read_required_decimal(members, "priceImpactPct")?;
                let route_plan = find_required(members, "routePlan")?.clone();
                let context_slot = read_u64_or(members, "contextSlot", 0)?;
                let time_taken = read_number_or(members, "timeTaken", Number::Binary64(0))?;
                Ok(
                    QuoteResponse {
                        input_mint,
                        in_amount,
                        output_mint,
                        out_amount,
                        other_amount_threshold,
                        swap_mode,
                        slippage_bps,
                        computed_auto_slippage,
                        uses_quote_minimizing_slippage,
                        platform_fee,
                        price_impact_pct,
                        route_plan,
                        context_slot,
                        time_taken,
                    },
                )
            },
            _ => Err(DecodeError::new(ErrorKind::UnexpectedType)),
        }
    }
}

/// How much the compute units that a route uses count against it.
#[derive(Clone, Copy, Debug, PartialEq)]
pub struct ComputeUnitScore {
    /// The largest penalty in basis points, as the number that is written
    /// for it.
    pub max_penalty_bps: Option<Number>,
}

impl Default for ComputeUnitScore {
    /// The score without a penalty.
    fn default() -> (score: ComputeUnitScore)
        ensures
            score.max_penalty_bps is None,
    {
        ComputeUnitScore { max_penalty_bps: None }
    }
}

impl ComputeUnitScore {
    /// The document of the score.
    pub open spec fn wire(self) -> JsonView {
        JsonView::Object(
            seq![
                (
                    "maxPenaltyBps"@,
                    match self.max_penalty_bps {
                        Some(penalty) => JsonView::Number(penalty),
                        None => JsonView::Null,
                    },
                ),
            ],
        )
    }

    /// Writes the score.
    pub fn serialize(&self) -> (j: Json)
        ensures
            j@ == self.wire(),
    {
        let mut members = new_members();
        push_member(
            &mut members,
            "maxPenaltyBps",
            match self.max_penalty_bps {
                Some(penalty) => Json::Number(penalty),
                None => Json::Null,
            },
        );
        assert(members_of(members@) =~= self.wire()->Object_0);
        Json::Object(members)
    }
}

/// The members that stand for the extra arguments of a quote type: each
/// argument under its name, as a string, in the order given.
pub open spec fn args_members(args: Seq<(String, String)>) -> Members {
    Seq::new(args.len(), |i: int| (args[i].0@, JsonView::Str(args[i].1@)))
}

/// Whether no two of the extra arguments have the same name, as in a map.
pub open spec fn distinct_names(args: Seq<(String, String)>) -> bool {
    forall|i: int, j: int|
        0 <= i < j < args.len() ==> (#[trigger] args[i]).0@ != (#[trigger] args[j]).0@
}

/// Among extra arguments with distinct names, each is found in the document
/// under its name.
pub proof fn lemma_args_found(args: Seq<(String, String)>, i: int)
    requires
        distinct_names(args),
        0 <= i < args.len(),
    ensures
        member(args_members(args), args[i].0@) == Some(JsonView::Str(args[i].1@)),
{
    let members = args_members(args);
    assert forall|k: int| 0 <= k < i && k < members.len() implies (#[trigger] members[k]).0
        != args[i].0@ by {
        assert(members[k].0 == args[k].0@);
    }
    lemma_member_at(members, args[i].0@, i);
}

/// Whether no two of the extra arguments have the same name.
pub fn has_distinct_names(args: &Vec<(String, String)>) -> (distinct: bool)
    ensures
        distinct == distinct_names(args@),
{
    let mut j: usize = 0;
    while j < args.len()
        invariant
            j <= args.len(),
            forall|a: int, b: int|
                0 <= a < b < j ==> (#[trigger] args@[a]).0@ != (#[trigger] args@[b]).0@,
        decreases args.len() - j,
    {
        let mut i: usize = 0;
        while i < j
            invariant
                i <= j < args.len(),
                forall|a: int| 0 <= a < i ==> (#[trigger] args@[a]).0@ != args@[j as int].0@,
            decreases j - i,
        {
            if args[i].0 == args[j].0 {
                return false;
            }
            i += 1;
        }
        j += 1;
    }
    true
}

/// The extra arguments of a quote type: values under names, as in a map. No
/// name occurs twice.
#[derive(Debug, PartialEq, Eq)]
pub struct QuoteArgs {
    entries: Vec<(String, String)>,
}

impl Clone for QuoteArgs {
    /// A copy with the same arguments.
    fn clone(&self) -> (copy: QuoteArgs)
        ensures
            copy.spec_entries() == self.spec_entries(),
    {
        proof {
            use_type_invariant(self);
        }
        let mut entries: Vec<(String, String)> = Vec::new();
        let mut i: usize = 0;
        while i < self.entries.len()
            invariant
                i <= self.entries.len(),
                entries@ == self.entries@.take(i as int),
            decreases self.entries.len() - i,
        {
            let name = self.entries[i].0.clone();
            let value = self.entries[i].1.clone();
            entries.push((name, value));
            assert(entries@ =~= self.entries@.take(i + 1));
            i += 1;
        }
        assert(entries@ =~= self.entries@);
        QuoteArgs { entries }
    }
}

impl QuoteArgs {
    #[verifier::type_invariant]
    spec fn well_formed(self) -> bool {
        distinct_names(self.entries@)
    }

    /// The arguments, each a name and a value, in their order.
    pub closed spec fn spec_entries(self) -> Seq<(String, String)> {
        self.entries@
    }

    /// The arguments made of `entries`; `None` where a name occurs twice.
    pub fn new(entries: Vec<(String, String)>) -> (args: Option<QuoteArgs>)
        ensures
            match args {
                Some(args) => args.spec_entries() == entries@ && distinct_names(entries@),
                None => !distinct_names(entries@),
            },
    {
        if has_distinct_names(&entries) {
            Some(QuoteArgs { entries })
        } else {
            None
        }
    }

    /// The arguments, each a name and a value, in their order.
    pub fn entries(&self) -> (entries: &Vec<(String, String)>)
        ensures
            entries@ == self.spec_entries(),
            distinct_names(entries@),
    {
        proof {
            use_type_invariant(self);
        }
        &self.entries
    }
}

/// What is written for extra arguments that may be absent.
pub open spec fn optional_wire_args(args: Option<QuoteArgs>) -> JsonView {
    match args {
        Some(args) => JsonView::Object(args_members(args.spec_entries())),
        None => JsonView::Null,
    }
}

/// What is written for a score that may be absent.
pub open spec fn optional_wire_score(score: Option<ComputeUnitScore>) -> JsonView {
    match score {
        Some(score) => score.wire(),
        None => JsonView::Null,
    }
}

/// Writes extra arguments that may be absent.
fn write_optional_args(args: &Option<QuoteArgs>) -> (j: Json)
    ensures
        j@ == optional_wire_args(*args),
{
    match args {
        Some(args) => {
            let entries = args.entries();
            let ghost all = args_members(entries@);
            let mut members = new_members();
            let mut i: usize = 0;
            assert(all.take(0) =~= Members::empty());
            while i < entries.len()
                invariant
                    i <= entries.len(),
                    all == args_members(entries@),
                    members_of(members@) == all.take(i as int),
                decreases entries.len() - i,
            {
                push_member(&mut members, entries[i].0.as_str(), write_text(&entries[i].1));
                assert(all.take(i + 1) =~= all.take(i as int).push(all[i as int]));
                i += 1;
            }
            assert(all.take(entries.len() as int) =~= all);
            Json::Object(members)
        },
        None => Json::Null,
    }
}

/// Writes a score that may be absent.
fn write_optional_score(score: &Option<ComputeUnitScore>) -> (j: Json)
    ensures
        j@ == optional_wire_score(*score),
{
    match score {
        Some(score) => score.serialize(),
        None => Json::Null,
    }
}

/// What a caller asks of the quoting service.
#[derive(Clone, Debug, PartialEq)]
pub struct QuoteRequest {
    pub input_mint: Pubkey,
    pub output_mint: Pubkey,
    /// The amount to swap, in the smallest unit of the token.
    pub amount: u64,
    /// Whether the amount goes in or comes out; the service takes it as going
    /// in where absent.
    pub swap_mode: Option<SwapMode>,
    /// The slippage allowed, in basis points.
    pub slippage_bps: u16,
    /// Ask the service to suggest a slippage.
    pub auto_slippage: Option<bool>,
    /// The largest slippage to accept from that suggestion, in basis points.
    pub max_auto_slippage_bps: Option<u16>,
    pub compute_auto_slippage: bool,
    /// The largest value in USD to accept for that suggestion.
    pub auto_slippage_collision_usd_value: Option<u32>,
    /// Quote a larger amount to find the route with the least slippage.
    pub minimize_slippage: Option<bool>,
    /// The platform fee, in basis points.
    pub platform_fee_bps: Option<u8>,
    /// The markets to use: their labels, with commas between.
    pub dexes: Option<String>,
    /// The markets to leave out: their labels, with commas between.
    pub excluded_dexes: Option<String>,
    /// Quote direct routes only.
    pub only_direct_routes: Option<bool>,
    /// Quote a route that fits a legacy transaction.
    pub as_legacy_transaction: Option<bool>,
    /// Keep the tokens in between to those with stable liquidity.
    pub restrict_intermediate_tokens: Option<bool>,
    /// An estimate of the most accounts that a route may use.
    pub max_accounts: Option<usize>,
    /// Which routing algorithm to use.
    pub quote_type: Option<String>,
    /// Extra arguments of the quote type, each under its name.
    pub quote_args: Option<QuoteArgs>,
    /// Use only fully liquid markets in between.
    pub prefer_liquid_dexes: Option<bool>,
    /// Score routes by the compute units they use.
    pub compute_unit_score: Option<ComputeUnitScore>,
    /// Constraints on the routing.
    pub routing_constraints: Option<String>,
    /// Choose the tokens in between by their category.
    pub token_category_based_intermediate_tokens: Option<bool>,
}

impl Default for QuoteRequest {
    /// The request for nothing: zero keys, a zero amount, no slippage, and
    /// nothing optional set.
    fn default() -> (request: QuoteRequest)
        ensures
            is_zero_key(request.input_mint),
            is_zero_key(request.output_mint),
            request.amount == 0,
            request.swap_mode is None,
            request.slippage_bps == 0,
            request.auto_slippage is None,
            request.max_auto_slippage_bps is None,
            !request.compute_auto_slippage,
            request.auto_slippage_collision_usd_value is None,
            request.minimize_slippage is None,
            request.platform_fee_bps is None,
            request.dexes is None,
            request.excluded_dexes is None,
            request.only_direct_routes is None,
            request.as_legacy_transaction is None,
            request.restrict_intermediate_tokens is None,
            request.max_accounts is None,
            request.quote_type is None,
            request.quote_args is None,
            request.prefer_liquid_dexes is None,
            request.compute_unit_score is None,
            request.routing_constraints is None,
            request.token_category_based_intermediate_tokens is None,
    {
        QuoteRequest {
            input_mint: Pubkey::default(),
            output_mint: Pubkey::default(),
            amount: 0,
            swap_mode: None,
            slippage_bps: 0,
            auto_slippage: None,
            max_auto_slippage_bps: None,
            compute_auto_slippage: false,
            auto_slippage_collision_usd_value: None,
            minimize_slippage: None,
            platform_fee_bps: None,
            dexes: None,
            excluded_dexes: None,
            only_direct_routes: None,
            as_legacy_transaction: None,
            restrict_intermediate_tokens: None,
            max_accounts: None,
            quote_type: None,
            quote_args: None,
            prefer_liquid_dexes: None,
            compute_unit_score: None,
            routing_constraints: None,
            token_category_based_intermediate_tokens: None,
        }
    }
}

impl QuoteRequest {
    /// The document of the request: an object with every member, in the
    /// order of the fields, identifiers and the amount as strings, and null
    /// for what is absent.
    pub open spec fn wire(self) -> JsonView {
        JsonView::Object(
            Members::empty()
                .push(("inputMint"@, pubkey_wire(self.input_mint)))
                .push(("outputMint"@, pubkey_wire(self.output_mint)))
                .push(("amount"@, amount_wire(self.amount)))
                .push(("swapMode"@, optional_wire_mode(self.swap_mode)))
                .push(("slippageBps"@, unsigned_wire(self.slippage_bps as u64)))
                .push(("autoSlippage"@, optional_wire_bool(self.auto_slippage)))
                .push(("maxAutoSlippageBps"@, optional_wire_u16(self.max_auto_slippage_bps)))
                .push(("computeAutoSlippage"@, JsonView::Bool(self.compute_auto_slippage)))
                .push(("autoSlippageCollisionUsdValue"@,
                    optional_wire_u32(self.auto_slippage_collision_usd_value)))
                .push(("minimizeSlippage"@, optional_wire_bool(self.minimize_slippage)))
                .push(("platformFeeBps"@, optional_wire_u8(self.platform_fee_bps)))
                .push(("dexes"@, optional_wire_text(self.dexes)))
                .push(("excludedDexes"@, optional_wire_text(self.excluded_dexes)))
                .push(("onlyDirectRoutes"@, optional_wire_bool(self.only_direct_routes)))
                .push(("asLegacyTransaction"@, optional_wire_bool(self.as_legacy_transaction)))
                .push(("restrictIntermediateTokens"@,
                    optional_wire_bool(self.restrict_intermediate_tokens)))
                .push(("maxAccounts"@, optional_wire_usize(self.max_accounts)))
                .push(("quoteType"@, optional_wire_text(self.quote_type)))
                .push(("quoteArgs"@, optional_wire_args(self.quote_args)))
                .push(("preferLiquidDexes"@, optional_wire_bool(self.prefer_liquid_dexes)))
                .push(("computeUnitScore"@, optional_wire_score(self.compute_unit_score)))
                .push(("routingConstraints"@, optional_wire_text(self.routing_constraints)))
                .push(("tokenCategoryBasedIntermediateTokens"@,
                    optional_wire_bool(self.token_category_based_intermediate_tokens))),
        )
    }

    /// Writes the request.
    pub fn serialize(&self) -> (j: Json)
        ensures
            j@ == self.wire(),
    {
        let mut members = new_members();
        push_member(&mut members, "inputMint", write_pubkey(&self.input_mint));
        push_member(&mut members, "outputMint", write_pubkey(&self.output_mint));
        push_member(&mut members, "amount", write_amount(self.amount));
        push_member(&mut members, "swapMode", write_optional_mode(&self.swap_mode));
        push_member(&mut members, "slippageBps", write_unsigned(self.slippage_bps as u64));
        push_member(&mut members, "autoSlippage", write_optional_bool(self.auto_slippage));
        push_member(&mut members, "maxAutoSlippageBps",
            write_optional_u16(self.max_auto_slippage_bps));
        push_member(&mut members, "computeAutoSlippage", Json::Bool(self.compute_auto_slippage));
        push_member(&mut members, "autoSlippageCollisionUsdValue",
            write_optional_u32(self.auto_slippage_collision_usd_value));
        push_member(&mut members, "minimizeSlippage", write_optional_bool(self.minimize_slippage));
        push_member(&mut members, "platformFeeBps", write_optional_u8(self.platform_fee_bps));
        push_member(&mut members, "dexes", write_optional_text(&self.dexes));
        push_member(&mut members, "excludedDexes", write_optional_text(&self.excluded_dexes));
        push_member(&mut members, "onlyDirectRoutes", write_optional_bool(self.only_direct_routes));
        push_member(&mut members, "asLegacyTransaction",
            write_optional_bool(self.as_legacy_transaction));
        push_member(&mut members, "restrictIntermediateTokens",
            write_optional_bool(self.restrict_intermediate_tokens));
        push_member(&mut members, "maxAccounts", write_optional_usize(self.max_accounts));
        push_member(&mut members, "quoteType", write_optional_text(&self.quote_type));
        push_member(&mut members, "quoteArgs", write_optional_args(&self.quote_args));
        push_member(&mut members, "preferLiquidDexes",
            write_optional_bool(self.prefer_liquid_dexes));
        push_member(&mut members, "computeUnitScore",
            write_optional_score(&self.compute_unit_score));
        push_member(&mut members, "routingConstraints",
            write_optional_text(&self.routing_constraints));
        push_member(&mut members, "tokenCategoryBasedIntermediateTokens",
            write_optional_bool(self.token_category_based_intermediate_tokens));
        Json::Object(members)
    }
}

/// A request without the extra arguments of the quote type, which travel
/// beside it.
#[derive(Clone, Debug, PartialEq)]
pub struct InternalQuoteRequest {
    pub input_mint: Pubkey,
    pub output_mint: Pubkey,
    /// The amount to swap, in the smallest unit of the token.
    pub amount: u64,
    /// Whether the amount goes in or comes out; the service takes it as going
    /// in where absent.
    pub swap_mode: Option<SwapMode>,
    /// The slippage allowed, in basis points.
    pub slippage_bps: u16,
    /// Ask the service to suggest a slippage.
    pub auto_slippage: Option<bool>,
    /// The largest slippage to accept from that suggestion, in basis points.
    pub max_auto_slippage_bps: Option<u16>,
    pub compute_auto_slippage: bool,
    /// The largest value in USD to accept for that suggestion.
    pub auto_slippage_collision_usd_value: Option<u32>,
    /// Quote a larger amount to find the route with the least slippage.
    pub minimize_slippage: Option<bool>,
    /// The platform fee, in basis points.
    pub platform_fee_bps: Option<u8>,
    /// The markets to use: their labels, with commas between.
    pub dexes: Option<String>,
    /// The markets to leave out: their labels, with commas between.
    pub excluded_dexes: Option<String>,
    /// Quote direct routes only.
    pub only_direct_routes: Option<bool>,
    /// Quote a route that fits a legacy transaction.
    pub as_legacy_transaction: Option<bool>,
    /// Keep the tokens in between to those with stable liquidity.
    pub restrict_intermediate_tokens: Option<bool>,
    /// An estimate of the most accounts that a route may use.
    pub max_accounts: Option<usize>,
    /// Which routing algorithm to use.
    pub quote_type: Option<String>,
    /// Use only fully liquid markets in between.
    pub prefer_liquid_dexes: Option<bool>,
}

impl Default for InternalQuoteRequest {
    /// The request for nothing: zero keys, a zero amount, no slippage, and
    /// nothing optional set.
    fn default() -> (request: InternalQuoteRequest)
        ensures
            is_zero_key(request.input_mint),
            is_zero_key(request.output_mint),
            request.amount == 0,
            request.swap_mode is None,
            request.slippage_bps == 0,
            request.auto_slippage is None,
            request.max_auto_slippage_bps is None,
            !request.compute_auto_slippage,
            request.auto_slippage_collision_usd_value is None,
            request.minimize_slippage is None,
            request.platform_fee_bps is None,
            request.dexes is None,
            request.excluded_dexes is None,
            request.only_direct_routes is None,
            request.as_legacy_transaction is None,
            request.restrict_intermediate_tokens is None,
            request.max_accounts is None,
            request.quote_type is None,
            request.prefer_liquid_dexes is None,
    {
        InternalQuoteRequest {
            input_mint: Pubkey::default(),
            output_mint: Pubkey::default(),
            amount: 0,
            swap_mode: None,
            slippage_bps: 0,
            auto_slippage: None,
            max_auto_slippage_bps: None,
            compute_auto_slippage: false,
            auto_slippage_collision_usd_value: None,
            minimize_slippage: None,
            platform_fee_bps: None,
            dexes: None,
            excluded_dexes: None,
            only_direct_routes: None,
            as_legacy_transaction: None,
            restrict_intermediate_tokens: None,
            max_accounts: None,
            quote_type: None,
            prefer_liquid_dexes: None,
        }
    }
}

impl InternalQuoteRequest {
    /// The document of the request: an object with every member, in the
    /// order of the fields, identifiers and the amount as strings, and null
    /// for what is absent.
    pub open spec fn wire(self) -> JsonView {
        JsonView::Object(
            Members::empty()
                .push(("inputMint"@, pubkey_wire(self.input_mint)))
                .push(("outputMint"@, pubkey_wire(self.output_mint)))
                .push(("amount"@, amount_wire(self.amount)))
                .push(("swapMode"@, optional_wire_mode(self.swap_mode)))
                .push(("slippageBps"@, unsigned_wire(self.slippage_bps as u64)))
                .push(("autoSlippage"@, optional_wire_bool(self.auto_slippage)))
                .push(("maxAutoSlippageBps"@, optional_wire_u16(self.max_auto_slippage_bps)))
                .push(("computeAutoSlippage"@, JsonView::Bool(self.compute_auto_slippage)))
                .push(("autoSlippageCollisionUsdValue"@,
                    optional_wire_u32(self.auto_slippage_collision_usd_value)))
                .push(("minimizeSlippage"@, optional_wire_bool(self.minimize_slippage)))
                .push(("platformFeeBps"@, optional_wire_u8(self.platform_fee_bps)))
                .push(("dexes"@, optional_wire_text(self.dexes)))
                .push(("excludedDexes"@, optional_wire_text(self.excluded_dexes)))
                .push(("onlyDirectRoutes"@, optional_wire_bool(self.only_direct_routes)))
                .push(("asLegacyTransaction"@, optional_wire_bool(self.as_legacy_transaction)))
                .push(("restrictIntermediateTokens"@,
                    optional_wire_bool(self.restrict_intermediate_tokens)))
                .push(("maxAccounts"@, optional_wire_usize(self.max_accounts)))
                .push(("quoteType"@, optional_wire_text(self.quote_type)))
                .push(("preferLiquidDexes"@, optional_wire_bool(self.prefer_liquid_dexes))),
        )
    }

    /// Writes the request.
    pub fn serialize(&self) -> (j: Json)
        ensures
            j@ == self.wire(),
    {
        let mut members = new_members();
        push_member(&mut members, "inputMint", write_pubkey(&self.input_mint));
        push_member(&mut members, "outputMint", write_pubkey(&self.output_mint));
        push_member(&mut members, "amount", write_amount(self.amount));
        push_member(&mut members, "swapMode", write_optional_mode(&self.swap_mode));
        push_member(&mut members, "slippageBps", write_unsigned(self.slippage_bps as u64));
        push_member(&mut members, "autoSlippage", write_optional_bool(self.auto_slippage));
        push_member(&mut members, "maxAutoSlippageBps",
            write_optional_u16(self.max_auto_slippage_bps));
        push_member(&mut members, "computeAutoSlippage", Json::Bool(self.compute_auto_slippage));
        push_member(&mut members, "autoSlippageCollisionUsdValue",
            write_optional_u32(self.auto_slippage_collision_usd_value));
        push_member(&mut members, "minimizeSlippage", write_optional_bool(self.minimize_slippage));
        push_member(&mut members, "platformFeeBps", write_optional_u8(self.platform_fee_bps));
        push_member(&mut members, "dexes", write_optional_text(&self.dexes));
        push_member(&mut members, "excludedDexes", write_optional_text(&self.excluded_dexes));
        push_member(&mut members, "onlyDirectRoutes", write_optional_bool(self.only_direct_routes));
        push_member(&mut members, "asLegacyTransaction",
            write_optional_bool(self.as_legacy_transaction));
        push_member(&mut members, "restrictIntermediateTokens",
            write_optional_bool(self.restrict_intermediate_tokens));
        push_member(&mut members, "maxAccounts", write_optional_usize(self.max_accounts));
        push_member(&mut members, "quoteType", write_optional_text(&self.quote_type));
        push_member(&mut members, "preferLiquidDexes",
            write_optional_bool(self.prefer_liquid_dexes));
        Json::Object(members)
    }
}

impl QuoteRequest {
    /// The request without what travels beside it: every field that both
    /// kinds of request have, unchanged.
    pub open spec fn projection(self) -> InternalQuoteRequest {
        InternalQuoteRequest {
            input_mint: self.input_mint,
            output_mint: self.output_mint,
            amount: self.amount,
            swap_mode: self.swap_mode,
            slippage_bps: self.slippage_bps,
            auto_slippage: self.auto_slippage,
            max_auto_slippage_bps: self.max_auto_slippage_bps,
            compute_auto_slippage: self.compute_auto_slippage,
            auto_slippage_collision_usd_value: self.auto_slippage_collision_usd_value,
            minimize_slippage: self.minimize_slippage,
            platform_fee_bps: self.platform_fee_bps,
            dexes: self.dexes,
            excluded_dexes: self.excluded_dexes,
            only_direct_routes: self.only_direct_routes,
            as_legacy_transaction: self.as_legacy_transaction,
            restrict_intermediate_tokens: self.restrict_intermediate_tokens,
            max_accounts: self.max_accounts,
            quote_type: self.quote_type,
            prefer_liquid_dexes: self.prefer_liquid_dexes,
        }
    }
}

impl From<QuoteRequest> for InternalQuoteRequest {
    /// Drops the extra arguments, the score, the routing constraints and the
    /// switch for intermediate tokens by category; copies the rest.
    fn from(request: QuoteRequest) -> (internal: InternalQuoteRequest) {
        InternalQuoteRequest {
            input_mint: request.input_mint,
            output_mint: request.output_mint,
            amount: request.amount,
            swap_mode: request.swap_mode,
            slippage_bps: request.slippage_bps,
            auto_slippage: request.auto_slippage,
            max_auto_slippage_bps: request.max_auto_slippage_bps,
            compute_auto_slippage: request.compute_auto_slippage,
            auto_slippage_collision_usd_value: request.auto_slippage_collision_usd_value,
            minimize_slippage: request.minimize_slippage,
            platform_fee_bps: request.platform_fee_bps,
            dexes: request.dexes,
            excluded_dexes: request.excluded_dexes,
            only_direct_routes: request.only_direct_routes,
            as_legacy_transaction: request.as_legacy_transaction,
            restrict_intermediate_tokens: request.restrict_intermediate_tokens,
            max_accounts: request.max_accounts,
            quote_type: request.quote_type,
            prefer_liquid_dexes: request.prefer_liquid_dexes,
        }
    }
}

impl vstd::std_specs::convert::FromSpecImpl<QuoteRequest> for InternalQuoteRequest {
    open spec fn obeys_from_spec() -> bool {
        true
    }

    open spec fn from_spec(request: QuoteRequest) -> InternalQuoteRequest {
        request.projection()
    }
}

} // verus!
