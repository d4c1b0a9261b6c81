//! The policy for building a swap transaction, and the two unions in it
//! that have more than one shape on the wire.

use vstd::prelude::*;
use crate::error::{accepted, rejected, DecodeError, ErrorKind};
use crate::json::{
    clone_members, find_member, lemma_member_absent, lemma_member_at, lemma_member_push, member,
    members_of,
    new_members, push_member, text_is, values_of, Json, JsonView, Members,
};
use crate::pubkey::Pubkey;
use crate::wire::{
    bool_of, bool_or, check_optional_key, decoded, find_optional, optional, optional_bool,
        optional_pubkey,
    optional_key_round_trips, optional_u16, optional_u8, optional_wire_bool, optional_wire_pubkey,
        optional_wire_u16,
    optional_wire_u8, read_bool, read_bool_or,
    read_optional_bool, read_optional_pubkey, read_optional_u16, read_optional_u8,
    read_required_text, read_u32, read_u64, required_text, u32_of, u64_of, unsigned_wire,
    write_optional_bool, write_optional_pubkey, write_optional_u16, write_optional_u8,
};

verus! {

/// How urgent a transaction is.
#[derive(Clone, Copy, Debug, PartialEq, Eq, Structural)]
pub enum PriorityLevel {
    Medium,
    High,
    VeryHigh,
}

impl PriorityLevel {
    /// The name of the level on the wire.
    pub open spec fn name(self) -> Seq<char> {
        match self {
            PriorityLevel::Medium => "medium"@,
            PriorityLevel::High => "high"@,
            PriorityLevel::VeryHigh => "veryHigh"@,
        }
    }

    /// The level that a name stands for.
    pub open spec fn of_name(name: Seq<char>) -> Option<PriorityLevel> {
        if name == "medium"@ {
            Some(PriorityLevel::Medium)
        } else if name == "high"@ {
            Some(PriorityLevel::High)
        } else if name == "veryHigh"@ {
            Some(PriorityLevel::VeryHigh)
        } else {
            None
        }
    }

    /// The document of the level: the string of its name.
    pub open spec fn wire(self) -> JsonView {
        JsonView::Str(self.name())
    }

    /// The level that a document holds: a string that is the name of one,
    /// letter for letter.
    pub open spec fn of_wire(j: JsonView) -> Result<PriorityLevel, DecodeError> {
        match j {
            JsonView::Str(name) => match PriorityLevel::of_name(name) {
                Some(level) => Ok(level),
                None => Err(DecodeError::bare(ErrorKind::UnrecognizedVariant)),
            },
            _ => Err(DecodeError::bare(ErrorKind::UnexpectedType)),
        }
    }

    /// The three names differ, so each level is read back from its name.
    pub proof fn lemma_round_trip(self)
        ensures
            PriorityLevel::of_name(self.name()) == Some(self),
            PriorityLevel::of_wire(self.wire()) == accepted(self),
    {
        reveal_strlit("medium");
        reveal_strlit("high");
        reveal_strlit("veryHigh");
        assert("medium"@.len() == 6 && "high"@.len() == 4 && "veryHigh"@.len() == 8);
    }

    /// Writes the level.
    pub fn serialize(&self) -> (j: Json)
        ensures
            j@ == self.wire(),
    {
        match self {
            PriorityLevel::Medium => Json::string("medium"),
            PriorityLevel::High => Json::string("high"),
            PriorityLevel::VeryHigh => Json::string("veryHigh"),
        }
    }

    /// Reads a level.
    pub fn deserialize(j: &Json) -> (r: Result<PriorityLevel, DecodeError>)
        ensures
            r == PriorityLevel::of_wire(j@),
    {
        match j {
            Json::Str(name) => {
                if text_is(name, "medium") {
                    Ok(PriorityLevel::Medium)
                } else if text_is(name, "high") {
                    Ok(PriorityLevel::High)
                } else if text_is(name, "veryHigh") {
                    Ok(PriorityLevel::VeryHigh)
                } else {
                    Err(DecodeError::new(ErrorKind::UnrecognizedVariant))
                }
            },
            _ => Err(DecodeError::new(ErrorKind::UnexpectedType)),
        }
    }
}

/// Whether a document is the string `auto`, letter for letter.
pub open spec fn is_auto(j: JsonView) -> bool {
    j == JsonView::Str("auto"@)
}

/// Whether a document is the string `disabled`, letter for letter.
pub open spec fn is_disabled(j: JsonView) -> bool {
    j == JsonView::Str("disabled"@)
}

/// What the probe for a word reports of a document that is not the word.
pub open spec fn not_the_word(j: JsonView) -> DecodeError {
    match j {
        JsonView::Str(_) => DecodeError::bare(ErrorKind::UnrecognizedVariant),
        _ => DecodeError::bare(ErrorKind::UnexpectedType),
    }
}

/// Whether a document is the string `word`.
fn is_word(j: &Json, word: &str) -> (r: Result<(), DecodeError>)
    ensures
        r is Ok <==> j@ == JsonView::Str(word@),
        r matches Err(e) ==> e == not_the_word(j@),
{
    match j {
        Json::Str(text) => {
            if text_is(text, word) {
                Ok(())
            } else {
                Err(DecodeError::new(ErrorKind::UnrecognizedVariant))
            }
        },
        _ => Err(DecodeError::new(ErrorKind::UnexpectedType)),
    }
}

/// The probe for the sentinel `auto`: succeeds on the string `auto` and on
/// nothing else.
pub fn auto(j: &Json) -> (r: Result<(), DecodeError>)
    ensures
        r is Ok <==> is_auto(j@),
        r matches Err(e) ==> e == not_the_word(j@),
{
    is_word(j, "auto")
}

/// The probe for the sentinel `disabled`: succeeds on the string `disabled`
/// and on nothing else.
pub fn disabled(j: &Json) -> (r: Result<(), DecodeError>)
    ensures
        r is Ok <==> is_disabled(j@),
        r matches Err(e) ==> e == not_the_word(j@),
{
    is_word(j, "disabled")
}

/// The price of a compute unit: a rate in micro-lamports, or the request to
/// let the server choose.
#[derive(Clone, Copy, Debug, PartialEq, Eq, Structural)]
pub enum ComputeUnitPriceMicroLamports {
    MicroLamports(u64),
    Auto,
}

impl ComputeUnitPriceMicroLamports {
    /// The document of the price: a bare number for a rate, the string
    /// `auto` for the sentinel.
    pub open spec fn wire(self) -> JsonView {
        match self {
            ComputeUnitPriceMicroLamports::MicroLamports(rate) => unsigned_wire(rate),
            ComputeUnitPriceMicroLamports::Auto => JsonView::Str("auto"@),
        }
    }

    /// The price that a document holds. The shapes are tried in order: a bare
    /// number first, then the string `auto`; a document of neither shape is
    /// rejected.
    pub open spec fn of_wire(j: JsonView) -> Result<ComputeUnitPriceMicroLamports, DecodeError> {
        if let Ok(rate) = u64_of(j) {
            Ok(ComputeUnitPriceMicroLamports::MicroLamports(rate))
        } else if is_auto(j) {
            Ok(ComputeUnitPriceMicroLamports::Auto)
        } else {
            Err(DecodeError::bare(ErrorKind::UnrecognizedShape))
        }
    }

    /// Every price is read back from what is written for it.
    pub proof fn lemma_round_trip(self)
        ensures
            ComputeUnitPriceMicroLamports::of_wire(self.wire()) == accepted(self),
    {
    }

    /// A string in another case than `auto` is no price.
    pub proof fn lemma_wrong_case_rejected()
        ensures
            ComputeUnitPriceMicroLamports::of_wire(JsonView::Str("Auto"@))
                == rejected::<ComputeUnitPriceMicroLamports>(
                DecodeError::bare(ErrorKind::UnrecognizedShape),
            ),
    {
        reveal_strlit("Auto");
        reveal_strlit("auto");
        assert("Auto"@[0] != "auto"@[0]);
    }

    /// Writes the price.
    pub fn serialize(&self) -> (j: Json)
        ensures
            j@ == self.wire(),
    {
        match self {
            ComputeUnitPriceMicroLamports::MicroLamports(rate) => Json::unsigned(*rate),
            ComputeUnitPriceMicroLamports::Auto => Json::string("auto"),
        }
    }

    /// Reads a price.
    pub fn deserialize(j: &Json) -> (r: Result<ComputeUnitPriceMicroLamports, DecodeError>)
        ensures
            r == ComputeUnitPriceMicroLamports::of_wire(j@),
    {
        if let Ok(rate) = read_u64(j) {
            return Ok(ComputeUnitPriceMicroLamports::MicroLamports(rate));
        }
        if auto(j).is_ok() {
            return Ok(ComputeUnitPriceMicroLamports::Auto);
        }
        Err(DecodeError::new(ErrorKind::UnrecognizedShape))
    }
}

/// The fee paid for priority, besides the fee for signatures.
#[derive(Clone, Copy, Debug, PartialEq, Eq, Structural)]
pub enum PrioritizationFeeLamports {
    AutoMultiplier(u32),
    JitoTipLamports(u64),
    PriorityLevelWithMaxLamports { priority_level: PriorityLevel, max_lamports: u64, global: bool },
    Auto,
    Lamports(u64),
    Disabled,
}

/// The value of the one member of an object that has no other member and
/// whose key is `key`.
pub open spec fn sole_member(j: JsonView, key: Seq<char>) -> Option<JsonView> {
    match j {
        JsonView::Object(members) if members.len() == 1 && members[0].0 == key => Some(
            members[0].1,
        ),
        _ => None,
    }
}

/// The shape `{ "autoMultiplier": <u32> }`.
pub open spec fn auto_multiplier_shape(j: JsonView) -> Option<u32> {
    match sole_member(j, "autoMultiplier"@) {
        Some(value) => match u32_of(value) {
            Ok(multiplier) => Some(multiplier),
            Err(_) => None,
        },
        None => None,
    }
}

/// The shape `{ "jitoTipLamports": <u64> }`.
pub open spec fn jito_tip_shape(j: JsonView) -> Option<u64> {
    match sole_member(j, "jitoTipLamports"@) {
        Some(value) => match u64_of(value) {
            Ok(lamports) => Some(lamports),
            Err(_) => None,
        },
        None => None,
    }
}

/// The level with its cap that the members of an object give: a level under
/// `priorityLevel`, a number under `maxLamports`, and under `global` a
/// boolean, or `false` where that member is absent. Other members are passed
/// over.
pub open spec fn level_with_cap(members: Members) -> Option<PrioritizationFeeLamports> {
    match (member(members, "priorityLevel"@), member(members, "maxLamports"@)) {
        (Some(level), Some(cap)) => match (
            PriorityLevel::of_wire(level),
            u64_of(cap),
            match member(members, "global"@) {
                Some(flag) => bool_of(flag),
                None => Ok(false),
            },
        ) {
            (Ok(priority_level), Ok(max_lamports), Ok(global)) => Some(
                PrioritizationFeeLamports::PriorityLevelWithMaxLamports {
                    priority_level,
                    max_lamports,
                    global,
                },
            ),
            _ => None,
        },
        _ => None,
    }
}

/// The shape `{ "priorityLevelWithMaxLamports": { .. } }`.
pub open spec fn priority_level_shape(j: JsonView) -> Option<PrioritizationFeeLamports> {
    match sole_member(j, "priorityLevelWithMaxLamports"@) {
        Some(JsonView::Object(members)) => level_with_cap(members),
        _ => None,
    }
}

/// The value of the one member of an object that has no other member and
/// whose key is `key`.
fn find_sole_member<'a>(j: &'a Json, key: &str) -> (found: Option<&'a Json>)
    ensures
        match found {
            Some(value) => sole_member(j@, key@) == Some(value@),
            None => sole_member(j@, key@) is None,
        },
{
    match j {
        Json::Object(members) => {
            if members.len() == 1 && text_is(&members[0].0, key) {
                Some(&members[0].1)
            } else {
                None
            }
        },
        _ => None,
    }
}

/// Reads a level with its cap from the members of an object.
fn read_level_with_cap(members: &Vec<(String, Json)>) -> (fee: Option<PrioritizationFeeLamports>)
    ensures
        fee == level_with_cap(members_of(members@)),
{
    let level = match find_member(members, "priorityLevel") {
        Some(level) => level,
        None => {
            return None;
        },
    };
    let cap = match find_member(members, "maxLamports") {
        Some(cap) => cap,
        None => {
            return None;
        },
    };
    let priority_level = PriorityLevel::deserialize(level);
    let max_lamports = read_u64(cap);
    let global = match find_member(members, "global") {
        Some(flag) => read_bool(flag),
        None => Ok(false),
    };
    match (priority_level, max_lamports, global) {
        (Ok(priority_level), Ok(max_lamports), Ok(global)) => Some(
            PrioritizationFeeLamports::PriorityLevelWithMaxLamports {
                priority_level,
                max_lamports,
                global,
            },
        ),
        _ => None,
    }
}

impl PrioritizationFeeLamports {
    /// The document of the fee: exactly one of six shapes, by the variant.
    pub open spec fn wire(self) -> JsonView {
        match self {
            PrioritizationFeeLamports::AutoMultiplier(multiplier) => JsonView::Object(
                seq![("autoMultiplier"@, unsigned_wire(multiplier as u64))],
            ),
            PrioritizationFeeLamports::JitoTipLamports(lamports) => JsonView::Object(
                seq![("jitoTipLamports"@, unsigned_wire(lamports))],
            ),
            PrioritizationFeeLamports::PriorityLevelWithMaxLamports {
                priority_level,
                max_lamports,
                global,
            } => JsonView::Object(
                seq![
                    (
                        "priorityLevelWithMaxLamports"@,
                        JsonView::Object(
                            seq![
                                ("priorityLevel"@, priority_level.wire()),
                                ("maxLamports"@, unsigned_wire(max_lamports)),
                                ("global"@, JsonView::Bool(global)),
                            ],
                        ),
                    ),
                ],
            ),
            PrioritizationFeeLamports::Auto => JsonView::Str("auto"@),
            PrioritizationFeeLamports::Lamports(lamports) => unsigned_wire(lamports),
            PrioritizationFeeLamports::Disabled => JsonView::Str("disabled"@),
        }
    }

    /// The fee that a document holds. The shapes are tried in this order, and
    /// the first that the document has decides: the object under
    /// `autoMultiplier`, the object under `jitoTipLamports`, the object under
    /// `priorityLevelWithMaxLamports`, the string `auto`, a bare number, the
    /// string `disabled`. A document of none of these shapes is rejected.
    pub open spec fn of_wire(j: JsonView) -> Result<PrioritizationFeeLamports, DecodeError> {
        if let Some(multiplier) = auto_multiplier_shape(j) {
            Ok(PrioritizationFeeLamports::AutoMultiplier(multiplier))
        } else if let Some(lamports) = jito_tip_shape(j) {
            Ok(PrioritizationFeeLamports::JitoTipLamports(lamports))
        } else if let Some(fee) = priority_level_shape(j) {
            Ok(fee)
        } else if is_auto(j) {
            Ok(PrioritizationFeeLamports::Auto)
        } else if let Ok(lamports) = u64_of(j) {
            Ok(PrioritizationFeeLamports::Lamports(lamports))
        } else if is_disabled(j) {
            Ok(PrioritizationFeeLamports::Disabled)
        } else {
            Err(DecodeError::bare(ErrorKind::UnrecognizedShape))
        }
    }

    /// Writes the fee in the shape of its variant.
    pub fn serialize(&self) -> (j: Json)
        ensures
            j@ == self.wire(),
    {
        match self {
            PrioritizationFeeLamports::AutoMultiplier(multiplier) => {
                let mut members = new_members();
                push_member(&mut members, "autoMultiplier", Json::unsigned(*multiplier as u64));
                assert(members_of(members@) =~= seq![
                    ("autoMultiplier"@, unsigned_wire(*multiplier as u64)),
                ]);
                Json::Object(members)
            },
            PrioritizationFeeLamports::JitoTipLamports(lamports) => {
                let mut members = new_members();
                push_member(&mut members, "jitoTipLamports", Json::unsigned(*lamports));
                assert(members_of(members@) =~= seq![
                    ("jitoTipLamports"@, unsigned_wire(*lamports)),
                ]);
                Json::Object(members)
            },
            PrioritizationFeeLamports::Auto => Json::string("auto"),
            PrioritizationFeeLamports::Lamports(lamports) => Json::unsigned(*lamports),
            PrioritizationFeeLamports::Disabled => Json::string("disabled"),
            PrioritizationFeeLamports::PriorityLevelWithMaxLamports {
                priority_level,
                max_lamports,
                global,
            } => {
                let mut inner = new_members();
                push_member(&mut inner, "priorityLevel", priority_level.serialize());
                push_member(&mut inner, "maxLamports", Json::unsigned(*max_lamports));
                push_member(&mut inner, "global", Json::Bool(*global));
                assert(members_of(inner@) =~= seq![
                    ("priorityLevel"@, priority_level.wire()),
                    ("maxLamports"@, unsigned_wire(*max_lamports)),
                    ("global"@, JsonView::Bool(*global)),
                ]);
                let mut members = new_members();
                push_member(&mut members, "priorityLevelWithMaxLamports", Json::Object(inner));
                assert(members_of(members@) =~= seq![
                    ("priorityLevelWithMaxLamports"@, JsonView::Object(members_of(inner@))),
                ]);
                Json::Object(members)
            },
        }
    }

    /// Reads a fee, trying the shapes in their order.
    pub fn deserialize(j: &Json) -> (r: Result<PrioritizationFeeLamports, DecodeError>)
        ensures
            r == PrioritizationFeeLamports::of_wire(j@),
    {
        if let Some(value) = find_sole_member(j, "autoMultiplier") {
            if let Ok(multiplier) = read_u32(value) {
                return Ok(PrioritizationFeeLamports::AutoMultiplier(multiplier));
            }
        }
        if let Some(value) = find_sole_member(j, "jitoTipLamports") {
            if let Ok(lamports) = read_u64(value) {
                return Ok(PrioritizationFeeLamports::JitoTipLamports(lamports));
            }
        }
        if let Some(Json::Object(members)) = find_sole_member(j, "priorityLevelWithMaxLamports") {
            if let Some(fee) = read_level_with_cap(members) {
                return Ok(fee);
            }
        }
        if auto(j).is_ok() {
            return Ok(PrioritizationFeeLamports::Auto);
        }
        if let Ok(lamports) = read_u64(j) {
            return Ok(PrioritizationFeeLamports::Lamports(lamports));
        }
        if disabled(j).is_ok() {
            return Ok(PrioritizationFeeLamports::Disabled);
        }
        Err(DecodeError::new(ErrorKind::UnrecognizedShape))
    }

    /// Every fee is read back from the shape that is written for it: each of
    /// the six shapes belongs to one variant.
    pub proof fn lemma_round_trip(self)
        ensures
            PrioritizationFeeLamports::of_wire(self.wire()) == accepted(self),
    {
        reveal_strlit("autoMultiplier");
        reveal_strlit("jitoTipLamports");
        reveal_strlit("priorityLevelWithMaxLamports");
        reveal_strlit("priorityLevel");
        reveal_strlit("maxLamports");
        reveal_strlit("global");
        reveal_strlit("auto");
        reveal_strlit("disabled");
        assert("autoMultiplier"@.len() == 14 && "jitoTipLamports"@.len() == 15
            && "priorityLevelWithMaxLamports"@.len() == 28 && "priorityLevel"@.len() == 13
            && "maxLamports"@.len() == 11 && "global"@.len() == 6 && "auto"@.len() == 4
            && "disabled"@.len() == 8);
        match self {
            PrioritizationFeeLamports::PriorityLevelWithMaxLamports {
                priority_level,
                max_lamports,
                global,
            } => {
                let inner = seq![
                    ("priorityLevel"@, priority_level.wire()),
                    ("maxLamports"@, unsigned_wire(max_lamports)),
                    ("global"@, JsonView::Bool(global)),
                ];
                priority_level.lemma_round_trip();
                lemma_member_at(inner, "priorityLevel"@, 0);
                lemma_member_at(inner, "maxLamports"@, 1);
                lemma_member_at(inner, "global"@, 2);
                assert(level_with_cap(inner) == Some(self));
            },
            _ => {},
        }
    }

    /// Where the member `global` is absent, the fee that is read has
    /// `global` false.
    pub proof fn lemma_absent_global_is_false(members: Members)
        requires
            member(members, "global"@) is None,
        ensures
            level_with_cap(members) matches Some(fee)
                ==> fee matches PrioritizationFeeLamports::PriorityLevelWithMaxLamports {
                global,
                ..
            } && !global,
    {
    }

    /// The object under `priorityLevelWithMaxLamports` that holds a level and
    /// a cap and nothing else is read as that level and cap, not global.
    pub proof fn lemma_global_defaults_to_false(priority_level: PriorityLevel, max_lamports: u64)
        ensures
            PrioritizationFeeLamports::of_wire(
                JsonView::Object(
                    seq![
                        (
                            "priorityLevelWithMaxLamports"@,
                            JsonView::Object(
                                seq![
                                    ("priorityLevel"@, priority_level.wire()),
                                    ("maxLamports"@, unsigned_wire(max_lamports)),
                                ],
                            ),
                        ),
                    ],
                ),
            ) == accepted(PrioritizationFeeLamports::PriorityLevelWithMaxLamports {
                    priority_level,
                    max_lamports,
                    global: false,
                },
            ),
    {
        reveal_strlit("autoMultiplier");
        reveal_strlit("jitoTipLamports");
        reveal_strlit("priorityLevelWithMaxLamports");
        reveal_strlit("priorityLevel");
        reveal_strlit("maxLamports");
        reveal_strlit("global");
        assert("autoMultiplier"@.len() == 14 && "jitoTipLamports"@.len() == 15
            && "priorityLevelWithMaxLamports"@.len() == 28 && "priorityLevel"@.len() == 13
            && "maxLamports"@.len() == 11 && "global"@.len() == 6);
        let inner = seq![
            ("priorityLevel"@, priority_level.wire()),
            ("maxLamports"@, unsigned_wire(max_lamports)),
        ];
        priority_level.lemma_round_trip();
        lemma_member_at(inner, "priorityLevel"@, 0);
        lemma_member_at(inner, "maxLamports"@, 1);
        lemma_member_absent(inner, "global"@);
    }
}

impl Default for PrioritizationFeeLamports {
    /// The sentinel that lets the server choose.
    fn default() -> (fee: PrioritizationFeeLamports)
        ensures
            fee == PrioritizationFeeLamports::Auto,
    {
        PrioritizationFeeLamports::Auto
    }
}

/// Bounds for a slippage that the server picks.
#[derive(Clone, Copy, Debug, PartialEq, Eq, Structural)]
pub struct DynamicSlippageSettings {
    pub min_bps: Option<u16>,
    pub max_bps: Option<u16>,
}

impl DynamicSlippageSettings {
    /// The document of the settings: an object with both bounds, null for a
    /// bound that is absent.
    pub open spec fn wire(self) -> JsonView {
        JsonView::Object(
            seq![
                ("minBps"@, optional_wire_u16(self.min_bps)),
                ("maxBps"@, optional_wire_u16(self.max_bps)),
            ],
        )
    }

    /// The settings that a document holds: an object; each bound is absent
    /// where its member is absent or null.
    pub open spec fn of_wire(j: JsonView) -> Result<DynamicSlippageSettings, DecodeError> {
        match j {
            JsonView::Object(members) => {
                let min_bps = optional_u16(members, "minBps");
                let max_bps = optional_u16(members, "maxBps");
                if min_bps is Err {
                    Err(min_bps->Err_0)
                } else if max_bps is Err {
                    Err(max_bps->Err_0)
                } else {
                    Ok(DynamicSlippageSettings { min_bps: min_bps->Ok_0, max_bps: max_bps->Ok_0 })
                }
            },
            _ => Err(DecodeError::bare(ErrorKind::UnexpectedType)),
        }
    }

    /// All settings are read back from what is written for them.
    pub proof fn lemma_round_trip(self)
        ensures
            DynamicSlippageSettings::of_wire(self.wire()) == accepted(self),
    {
        reveal_strlit("minBps");
        reveal_strlit("maxBps");
        assert("minBps"@[1] != "maxBps"@[1]);
        let members = self.wire()->Object_0;
        lemma_member_at(members, "minBps"@, 0);
        lemma_member_at(members, "maxBps"@, 1);
    }

    /// Writes the settings.
    pub fn serialize(&self) -> (j: Json)
        ensures
            j@ == self.wire(),
    {
        let mut members = new_members();
        push_member(&mut members, "minBps", write_optional_u16(self.min_bps));
        push_member(&mut members, "maxBps", write_optional_u16(self.max_bps));
        assert(members_of(members@) =~= self.wire()->Object_0);
        Json::Object(members)
    }

    /// Reads settings.
    pub fn deserialize(j: &Json) -> (r: Result<DynamicSlippageSettings, DecodeError>)
        ensures
            r == DynamicSlippageSettings::of_wire(j@),
    {
        match j {
            Json::Object(members) => {
                let min_bps = read_optional_u16(members, "minBps")?;
                let max_bps = read_optional_u16(members, "maxBps")?;
                Ok(DynamicSlippageSettings { min_bps, max_bps })
            },
            _ => Err(DecodeError::new(ErrorKind::UnexpectedType)),
        }
    }
}

/// The state of an account, as the members that stand for it in a document.
/// Which members these are is the account decoder's matter; here they are
/// carried as they come. None of them is under `pubkey` or `params`, the two
/// keys that the account has of its own at the same level of a document.
#[derive(Debug, PartialEq)]
pub struct UiAccount {
    fields: Vec<(String, Json)>,
}

impl View for UiAccount {
    type V = Members;

    closed spec fn view(&self) -> Members {
        members_of(self.fields@)
    }
}

/// Whether none of the members in a list is under `pubkey` or `params`.
pub fn has_no_own_key(fields: &Vec<(String, Json)>) -> (ok: bool)
    ensures
        ok == no_own_key(members_of(fields@)),
{
    let mut i: usize = 0;
    while i < fields.len()
        invariant
            i <= fields.len(),
            forall|k: int| 0 <= k < i ==> !is_own_key((#[trigger] members_of(fields@)[k]).0),
        decreases fields.len() - i,
    {
        if text_is(&fields[i].0, "pubkey") || text_is(&fields[i].0, "params") {
            assert(is_own_key(members_of(fields@)[i as int].0));
            return false;
        }
        i += 1;
    }
    true
}

impl UiAccount {
    #[verifier::type_invariant]
    spec fn well_formed(self) -> bool {
        no_own_key(members_of(self.fields@))
    }

    /// The state made of `fields`; `None` where one of them is under
    /// `pubkey` or `params`.
    pub fn new(fields: Vec<(String, Json)>) -> (state: Option<UiAccount>)
        ensures
            match state {
                Some(state) => state@ == members_of(fields@) && no_own_key(state@),
                None => !no_own_key(members_of(fields@)),
            },
    {
        if has_no_own_key(&fields) {
            Some(UiAccount { fields })
        } else {
            None
        }
    }

    /// The members of the state, in their order.
    pub fn fields(&self) -> (fields: &Vec<(String, Json)>)
        ensures
            members_of(fields@) == self@,
            no_own_key(self@),
    {
        proof {
            use_type_invariant(self);
        }
        &self.fields
    }
}

impl Clone for UiAccount {
    /// A deep copy: the copy has the same members.
    fn clone(&self) -> (copy: UiAccount)
        ensures
            copy@ == self@,
    {
        proof {
            use_type_invariant(self);
        }
        UiAccount { fields: clone_members(&self.fields) }
    }
}

/// An account with its identifier, its state, and what else the market that
/// owns it needs to know.
#[derive(Debug, PartialEq)]
pub struct KeyedUiAccount {
    pub pubkey: String,
    pub ui_account: UiAccount,
    pub params: Option<Json>,
}

/// The mathematical value of a [`KeyedUiAccount`].
pub struct KeyedUiAccountView {
    pub pubkey: Seq<char>,
    pub ui_account: Members,
    pub params: Option<JsonView>,
}

impl View for KeyedUiAccount {
    type V = KeyedUiAccountView;

    open spec fn view(&self) -> KeyedUiAccountView {
        KeyedUiAccountView {
            pubkey: self.pubkey@,
            ui_account: self.ui_account@,
            params: match self.params {
                Some(params) => Some(params@),
                None => None,
            },
        }
    }
}

impl Clone for KeyedUiAccount {
    /// A deep copy: the copy has the same value.
    fn clone(&self) -> (copy: KeyedUiAccount)
        ensures
            copy@ == self@,
    {
        KeyedUiAccount {
            pubkey: self.pubkey.clone(),
            ui_account: self.ui_account.clone(),
            params: match &self.params {
                Some(params) => Some(params.clone()),
                None => None,
            },
        }
    }
}

/// Whether a key is one of the two that a keyed account has of its own.
pub open spec fn is_own_key(key: Seq<char>) -> bool {
    key == "pubkey"@ || key == "params"@
}

/// The members that belong to the state of the account: all but those under
/// the account's own two keys, in their order.
pub open spec fn state_members(members: Members) -> Members
    decreases members.len(),
{
    if members.len() == 0 {
        Members::empty()
    } else if is_own_key(members.last().0) {
        state_members(members.drop_last())
    } else {
        state_members(members.drop_last()).push(members.last())
    }
}

/// Whether none of the members is under one of the account's own keys.
pub open spec fn no_own_key(members: Members) -> bool {
    forall|i: int| 0 <= i < members.len() ==> !is_own_key((#[trigger] members[i]).0)
}

/// The state members of two runs of members, one after the other, are those
/// of the first and then those of the second.
pub proof fn lemma_state_members_concat(first: Members, second: Members)
    ensures
        state_members(first + second) == state_members(first) + state_members(second),
    decreases second.len(),
{
    if second.len() == 0 {
        assert(first + second =~= first);
        assert(state_members(first) + state_members(second) =~= state_members(first));
    } else {
        let all = first + second;
        assert(all.drop_last() =~= first + second.drop_last());
        assert(all.last() == second.last());
        lemma_state_members_concat(first, second.drop_last());
        assert(state_members(first + second) =~= state_members(first) + state_members(second));
    }
}

/// Members of which none is under an own key are all state members.
pub proof fn lemma_state_members_all(members: Members)
    requires
        no_own_key(members),
    ensures
        state_members(members) == members,
    decreases members.len(),
{
    if members.len() > 0 {
        assert(!is_own_key(members[members.len() - 1].0));
        assert forall|i: int| 0 <= i < members.drop_last().len() implies !is_own_key(
            (#[trigger] members.drop_last()[i]).0,
        ) by {
            assert(members.drop_last()[i] == members[i]);
        }
        lemma_state_members_all(members.drop_last());
        assert(members.drop_last().push(members.last()) =~= members);
    }
}

/// The state members of any list of members: none is under an own key.
pub proof fn lemma_state_members_no_own_key(members: Members)
    ensures
        no_own_key(state_members(members)),
    decreases members.len(),
{
    if members.len() > 0 {
        lemma_state_members_no_own_key(members.drop_last());
    }
}

impl KeyedUiAccountView {
    /// The document of the account: one object that holds the identifier
    /// under `pubkey`, then the members of the state at the same level,
    /// then, where there are parameters, those under `params`.
    pub open spec fn wire(self) -> JsonView {
        JsonView::Object(
            seq![("pubkey"@, JsonView::Str(self.pubkey))] + self.ui_account + (match self.params {
                Some(params) => seq![("params"@, params)],
                None => Members::empty(),
            }),
        )
    }

    /// The account that a document holds: an object with a string under
    /// `pubkey`; the parameters are what stands under `params`, absent where
    /// that member is absent or null; every other member belongs to the
    /// state.
    pub open spec fn of_wire(j: JsonView) -> Result<KeyedUiAccountView, DecodeError> {
        match j {
            JsonView::Object(members) => match required_text(members, "pubkey") {
                Ok(pubkey) => Ok(
                    KeyedUiAccountView {
                        pubkey,
                        ui_account: state_members(members),
                        params: optional(members, "params"),
                    },
                ),
                Err(e) => Err(e),
            },
            _ => Err(DecodeError::bare(ErrorKind::UnexpectedType)),
        }
    }

    /// An account whose state has no member under `pubkey` or `params`, and
    /// whose parameters are absent or not null, is read back from what is
    /// written for it.
    pub proof fn lemma_round_trip(self)
        requires
            no_own_key(self.ui_account),
            self.params != Some(JsonView::Null),
        ensures
            KeyedUiAccountView::of_wire(self.wire()) == accepted(self),
    {
        reveal_strlit("pubkey");
        reveal_strlit("params");
        assert("pubkey"@[1] != "params"@[1]);
        let head = seq![("pubkey"@, JsonView::Str(self.pubkey))];
        let tail = match self.params {
            Some(params) => seq![("params"@, params)],
            None => Members::empty(),
        };
        let members = head + self.ui_account + tail;
        lemma_member_at(members, "pubkey"@, 0);
        assert forall|k: int| 0 <= k < 1 + self.ui_account.len() implies (#[trigger] members[k]).0
            != "params"@ by {
            if k > 0 {
                assert(members[k] == self.ui_account[k - 1]);
                assert(!is_own_key(self.ui_account[k - 1].0));
            }
        }
        if self.params is Some {
            lemma_member_at(members, "params"@, 1 + self.ui_account.len() as int);
        } else {
            lemma_member_absent(members, "params"@);
        }
        lemma_state_members_concat(head + self.ui_account, tail);
        lemma_state_members_concat(head, self.ui_account);
        lemma_state_members_all(self.ui_account);
        assert(state_members(head) =~= Members::empty()) by {
            assert(head.len() == 1 && is_own_key(head.last().0));
            assert(state_members(head.drop_last()) =~= Members::empty());
        }
        assert(state_members(tail) =~= Members::empty()) by {
            if self.params is Some {
                assert(tail.len() == 1 && is_own_key(tail.last().0));
                assert(state_members(tail.drop_last()) =~= Members::empty());
            }
        }
        assert(state_members(members) =~= self.ui_account);
    }

    /// The document of an account without parameters has no member under
    /// `params`.
    pub proof fn lemma_no_params_member(self)
        requires
            no_own_key(self.ui_account),
            self.params is None,
        ensures
            member(self.wire()->Object_0, "params"@) is None,
    {
        reveal_strlit("pubkey");
        reveal_strlit("params");
        assert("pubkey"@[1] != "params"@[1]);
        let members = self.wire()->Object_0;
        assert(members =~= seq![("pubkey"@, JsonView::Str(self.pubkey))] + self.ui_account);
        assert forall|k: int| 0 <= k < members.len() implies (#[trigger] members[k]).0
            != "params"@ by {
            if k > 0 {
                assert(members[k] == self.ui_account[k - 1]);
                assert(!is_own_key(self.ui_account[k - 1].0));
            }
        }
        lemma_member_absent(members, "params"@);
    }

    /// Every account that is read from a document is read back from what is
    /// written for it.
    pub proof fn lemma_decoded_round_trips(j: JsonView)
        ensures
            KeyedUiAccountView::of_wire(j) matches Ok(account) ==> KeyedUiAccountView::of_wire(
                account.wire(),
            ) == accepted(account),
    {
        if let Ok(account) = KeyedUiAccountView::of_wire(j) {
            lemma_state_members_no_own_key(j->Object_0);
            account.lemma_round_trip();
        }
    }

    /// Whether the account is read back from what is written for it.
    pub open spec fn round_trips(self) -> bool {
        KeyedUiAccountView::of_wire(self.wire()) == accepted(self)
    }

    /// Parameters that are null do not come back: they are read as absent.
    pub proof fn lemma_null_params_are_lost(self)
        requires
            no_own_key(self.ui_account),
            self.params == Some(JsonView::Null),
        ensures
            !self.round_trips(),
    {
        reveal_strlit("pubkey");
        reveal_strlit("params");
        assert("pubkey"@[1] != "params"@[1]);
        let head = seq![("pubkey"@, JsonView::Str(self.pubkey))];
        let members = head + self.ui_account + seq![("params"@, JsonView::Null)];
        assert(self.wire() == JsonView::Object(members));
        assert forall|k: int| 0 <= k < 1 + self.ui_account.len() implies (#[trigger] members[k]).0
            != "params"@ by {
            if k > 0 {
                assert(members[k] == self.ui_account[k - 1]);
                assert(!is_own_key(self.ui_account[k - 1].0));
            }
        }
        lemma_member_at(members, "pubkey"@, 0);
        lemma_member_at(members, "params"@, 1 + self.ui_account.len() as int);
    }
}

/// Collects the members that belong to the state of an account.
fn collect_state_members(members: &Vec<(String, Json)>) -> (state: Vec<(String, Json)>)
    ensures
        members_of(state@) == state_members(members_of(members@)),
{
    let mut state = new_members();
    let ghost all = members_of(members@);
    let mut i: usize = 0;
    assert(all.take(0) =~= Members::empty());
    while i < members.len()
        invariant
            i <= members.len(),
            all == members_of(members@),
            members_of(state@) == state_members(all.take(i as int)),
        decreases members.len() - i,
    {
        proof {
            assert(all.take(i + 1).drop_last() =~= all.take(i as int));
            assert(all.take(i + 1).last() == all[i as int]);
        }
        if !(text_is(&members[i].0, "pubkey") || text_is(&members[i].0, "params")) {
            let value = members[i].1.clone();
            push_member(&mut state, members[i].0.as_str(), value);
        }
        i += 1;
    }
    assert(all.take(members.len() as int) =~= all);
    state
}

impl KeyedUiAccount {
    /// Writes the account as one object, the state at the level of the
    /// identifier. Unless the parameters are null, the account is read back
    /// from this document.
    pub fn serialize(&self) -> (j: Json)
        ensures
            j@ == self@.wire(),
            no_own_key(self@.ui_account),
            self@.params != Some(JsonView::Null) ==> self@.round_trips(),
            self@.params is None ==> member(j@->Object_0, "params"@) is None,
    {
        proof {
            use_type_invariant(&self.ui_account);
            if self@.params != Some(JsonView::Null) {
                self@.lemma_round_trip();
            }
            if self@.params is None {
                self@.lemma_no_params_member();
            }
        }
        let mut members = new_members();
        push_member(&mut members, "pubkey", Json::Str(self.pubkey.clone()));
        let ghost head = members_of(members@);
        let ghost state = self.ui_account@;
        let mut i: usize = 0;
        assert(head + state.take(0) =~= head);
        while i < self.ui_account.fields.len()
            invariant
                i <= self.ui_account.fields.len(),
                state == members_of(self.ui_account.fields@),
                members_of(members@) == head + state.take(i as int),
            decreases self.ui_account.fields.len() - i,
        {
            let value = self.ui_account.fields[i].1.clone();
            push_member(&mut members, self.ui_account.fields[i].0.as_str(), value);
            assert(head + state.take(i + 1) =~= (head + state.take(i as int)).push(
                state[i as int],
            ));
            i += 1;
        }
        assert(state.take(self.ui_account.fields.len() as int) =~= state);
        assert(head =~= seq![("pubkey"@, JsonView::Str(self.pubkey@))]);
        match &self.params {
            Some(params) => {
                push_member(&mut members, "params", params.clone());
                assert(members_of(members@) =~= head + state + seq![("params"@, params@)]);
            },
            None => {
                assert(members_of(members@) =~= head + state + Members::empty());
            },
        }
        Json::Object(members)
    }

    /// Whether the account is read back from what is written for it: it is,
    /// unless the parameters are null.
    pub fn round_trips(&self) -> (ok: bool)
        ensures
            ok == self@.round_trips(),
            ok == (self@.params != Some(JsonView::Null)),
    {
        proof {
            use_type_invariant(&self.ui_account);
        }
        match &self.params {
            Some(Json::Null) => {
                proof {
                    self@.lemma_null_params_are_lost();
                }
                false
            },
            _ => {
                proof {
                    self@.lemma_round_trip();
                }
                true
            },
        }
    }

    /// Reads an account from one object.
    pub fn deserialize(j: &Json) -> (r: Result<KeyedUiAccount, DecodeError>)
        ensures
            decoded(r, KeyedUiAccountView::of_wire(j@)),
    {
        match j {
            Json::Object(members) => {
                let pubkey = read_required_text(members, "pubkey")?;
                let params = match find_optional(members, "params") {
                    Some(params) => Some(params.clone()),
                    None => None,
                };
                let fields = collect_state_members(members);
                proof {
                    lemma_state_members_no_own_key(members_of(members@));
                }
                Ok(KeyedUiAccount { pubkey, ui_account: UiAccount { fields }, params })
            },
            _ => Err(DecodeError::new(ErrorKind::UnexpectedType)),
        }
    }
}

/// The price of a compute unit under the member `key`; none where the member is absent or null.
/// A rejection from inside names `key` where it names no member.
pub open spec fn optional_price(members: Members, key: &'static str) -> Result<
    Option<ComputeUnitPriceMicroLamports>,
    DecodeError,
> {
    match optional(members, key) {
        Some(value) => match ComputeUnitPriceMicroLamports::of_wire(value) {
            Ok(read) => Ok(Some(read)),
            Err(e) => Err(e.within(key)),
        },
        None => Ok(None),
    }
}

/// What is written for the price of a compute unit that may be absent: null where it is.
pub open spec fn optional_wire_price(value: Option<ComputeUnitPriceMicroLamports>) -> JsonView {
    match value {
        Some(value) => value.wire(),
        None => JsonView::Null,
    }
}

/// Reads the price of a compute unit under the member `key`; none where the
/// member is absent or null.
fn read_optional_price(members: &Vec<(String, Json)>, key: &'static str) -> (r: Result<
    Option<ComputeUnitPriceMicroLamports>,
    DecodeError,
>)
    ensures
        r == optional_price(members_of(members@), key),
{
    match find_optional(members, key) {
        Some(value) => match ComputeUnitPriceMicroLamports::deserialize(value) {
            Ok(read) => Ok(Some(read)),
            Err(e) => Err(e.in_field(key)),
        },
        None => Ok(None),
    }
}

/// Writes a price of a compute unit that may be absent.
fn write_optional_price(value: &Option<ComputeUnitPriceMicroLamports>) -> (j: Json)
    ensures
        j@ == optional_wire_price(*value),
{
    match value {
        Some(value) => value.serialize(),
        None => Json::Null,
    }
}

/// The prioritization fee under the member `key`; none where the member is absent or null.
/// A rejection from inside names `key` where it names no member.
pub open spec fn optional_fee(members: Members, key: &'static str) -> Result<
    Option<PrioritizationFeeLamports>,
    DecodeError,
> {
    match optional(members, key) {
        Some(value) => match PrioritizationFeeLamports::of_wire(value) {
            Ok(read) => Ok(Some(read)),
            Err(e) => Err(e.within(key)),
        },
        None => Ok(None),
    }
}

/// What is written for the prioritization fee that may be absent: null where it is.
pub open spec fn optional_wire_fee(value: Option<PrioritizationFeeLamports>) -> JsonView {
    match value {
        Some(value) => value.wire(),
        None => JsonView::Null,
    }
}

/// Reads the prioritization fee under the member `key`; none where the member
/// is absent or null.
fn read_optional_fee(members: &Vec<(String, Json)>, key: &'static str) -> (r: Result<
    Option<PrioritizationFeeLamports>,
    DecodeError,
>)
    ensures
        r == optional_fee(members_of(members@), key),
{
    match find_optional(members, key) {
        Some(value) => match PrioritizationFeeLamports::deserialize(value) {
            Ok(read) => Ok(Some(read)),
            Err(e) => Err(e.in_field(key)),
        },
        None => Ok(None),
    }
}

/// Writes a prioritization fee that may be absent.
fn write_optional_fee(value: &Option<PrioritizationFeeLamports>) -> (j: Json)
    ensures
        j@ == optional_wire_fee(*value),
{
    match value {
        Some(value) => value.serialize(),
        None => Json::Null,
    }
}

/// The slippage settings under the member `key`; none where the member is absent or null.
/// A rejection from inside names `key` where it names no member.
pub open spec fn optional_slippage(members: Members, key: &'static str) -> Result<
    Option<DynamicSlippageSettings>,
    DecodeError,
> {
    match optional(members, key) {
        Some(value) => match DynamicSlippageSettings::of_wire(value) {
            Ok(read) => Ok(Some(read)),
            Err(e) => Err(e.within(key)),
        },
        None => Ok(None),
    }
}

/// What is written for the slippage settings that may be absent: null where it is.
pub open spec fn optional_wire_slippage(value: Option<DynamicSlippageSettings>) -> JsonView {
    match value {
        Some(value) => value.wire(),
        None => JsonView::Null,
    }
}

/// Reads the slippage settings under the member `key`; none where the member
/// is absent or null.
fn read_optional_slippage(members: &Vec<(String, Json)>, key: &'static str) -> (r: Result<
    Option<DynamicSlippageSettings>,
    DecodeError,
>)
    ensures
        r == optional_slippage(members_of(members@), key),
{
    match find_optional(members, key) {
        Some(value) => match DynamicSlippageSettings::deserialize(value) {
            Ok(read) => Ok(Some(read)),
            Err(e) => Err(e.in_field(key)),
        },
        None => Ok(None),
    }
}

/// Writes slippage settings that may be absent.
fn write_optional_slippage(value: &Option<DynamicSlippageSettings>) -> (j: Json)
    ensures
        j@ == optional_wire_slippage(*value),
{
    match value {
        Some(value) => value.serialize(),
        None => Json::Null,
    }
}

/// The values of a list of accounts.
pub open spec fn accounts_view(accounts: Seq<KeyedUiAccount>) -> Seq<KeyedUiAccountView> {
    Seq::new(accounts.len(), |i: int| accounts[i]@)
}

/// The values of a list of accounts that may be absent.
pub open spec fn optional_accounts_view(accounts: Option<Vec<KeyedUiAccount>>) -> Option<
    Seq<KeyedUiAccountView>,
> {
    match accounts {
        Some(accounts) => Some(accounts_view(accounts@)),
        None => None,
    }
}

/// The documents of a list of accounts.
pub open spec fn accounts_wire(accounts: Seq<KeyedUiAccountView>) -> Seq<JsonView> {
    Seq::new(accounts.len(), |i: int| accounts[i].wire())
}

/// The accounts that the items of an array hold, in order; the rejection of
/// the first item that holds none.
pub open spec fn accounts_of(items: Seq<JsonView>) -> Result<Seq<KeyedUiAccountView>, DecodeError>
    decreases items.len(),
{
    if items.len() == 0 {
        Ok(Seq::empty())
    } else {
        match accounts_of(items.drop_last()) {
            Ok(accounts) => match KeyedUiAccountView::of_wire(items.last()) {
                Ok(account) => Ok(accounts.push(account)),
                Err(e) => Err(e),
            },
            Err(e) => Err(e),
        }
    }
}

/// Whether each account of a list is one that is read back from its
/// document: its state has no member under `pubkey` or `params`, and its
/// parameters are absent or not null.
pub open spec fn accounts_round_trip(accounts: Seq<KeyedUiAccountView>) -> bool {
    forall|i: int|
        0 <= i < accounts.len() ==> no_own_key((#[trigger] accounts[i]).ui_account)
            && accounts[i].params != Some(JsonView::Null)
}

/// A list of such accounts is read back from the documents written for it.
pub proof fn lemma_accounts_round_trip(accounts: Seq<KeyedUiAccountView>)
    requires
        accounts_round_trip(accounts),
    ensures
        accounts_of(accounts_wire(accounts)) == accepted(accounts),
    decreases accounts.len(),
{
    if accounts.len() == 0 {
        assert(accounts =~= Seq::empty());
    } else {
        let written = accounts_wire(accounts);
        assert(written.drop_last() =~= accounts_wire(accounts.drop_last()));
        assert(written.last() == accounts.last().wire());
        assert(accounts.drop_last().push(accounts.last()) =~= accounts);
        assert forall|i: int| 0 <= i < accounts.drop_last().len() implies no_own_key(
            (#[trigger] accounts.drop_last()[i]).ui_account,
        ) && accounts.drop_last()[i].params != Some(JsonView::Null) by {
            assert(accounts.drop_last()[i] == accounts[i]);
        }
        lemma_accounts_round_trip(accounts.drop_last());
        accounts.last().lemma_round_trip();
    }
}

/// Checks that each account of a list is read back from its document: the
/// state of each is free of own keys by its type, so what is left to check
/// is that no parameters are null.
pub fn check_accounts(accounts: &Vec<KeyedUiAccount>) -> (ok: bool)
    ensures
        ok == accounts_round_trip(accounts_view(accounts@)),
{
    let ghost views = accounts_view(accounts@);
    let mut i: usize = 0;
    while i < accounts.len()
        invariant
            i <= accounts.len(),
            views == accounts_view(accounts@),
            forall|k: int|
                0 <= k < i ==> no_own_key((#[trigger] views[k]).ui_account) && views[k].params
                    != Some(JsonView::Null),
        decreases accounts.len() - i,
    {
        let account = &accounts[i];
        proof {
            use_type_invariant(&account.ui_account);
        }
        assert(views[i as int] == account@);
        if !account.round_trips() {
            return false;
        }
        i += 1;
    }
    true
}

/// The list of accounts under the member `key`: an array of accounts; none
/// where the member is absent or null.
pub open spec fn optional_accounts(members: Members, key: &'static str) -> Result<
    Option<Seq<KeyedUiAccountView>>,
    DecodeError,
> {
    match optional(members, key) {
        Some(JsonView::Array(items)) => match accounts_of(items) {
            Ok(accounts) => Ok(Some(accounts)),
            Err(e) => Err(e.within(key)),
        },
        Some(_) => Err(DecodeError::at(ErrorKind::UnexpectedType, key)),
        None => Ok(None),
    }
}

/// What is written for a list of accounts that may be absent.
pub open spec fn optional_wire_accounts(accounts: Option<Seq<KeyedUiAccountView>>) -> JsonView {
    match accounts {
        Some(accounts) => JsonView::Array(accounts_wire(accounts)),
        None => JsonView::Null,
    }
}

/// Reads the accounts that the items of an array hold.
fn read_accounts(items: &Vec<Json>) -> (r: Result<Vec<KeyedUiAccount>, DecodeError>)
    ensures
        match r {
            Ok(accounts) => accounts_of(values_of(items@)) == accepted(accounts_view(accounts@)),
            Err(e) => accounts_of(values_of(items@)) == rejected::<Seq<KeyedUiAccountView>>(e),
        },
{
    let mut accounts: Vec<KeyedUiAccount> = Vec::new();
    let ghost all = values_of(items@);
    let mut i: usize = 0;
    assert(all.take(0).len() == 0);
    assert(accounts_view(accounts@) =~= Seq::empty());
    while i < items.len()
        invariant
            i <= items.len(),
            all == values_of(items@),
            accounts_of(all.take(i as int)) == accepted(accounts_view(accounts@)),
        decreases items.len() - i,
    {
        proof {
            assert(all.take(i + 1).drop_last() =~= all.take(i as int));
            assert(all.take(i + 1).last() == items@[i as int]@);
        }
        match KeyedUiAccount::deserialize(&items[i]) {
            Ok(account) => {
                assert(accounts_view(accounts@.push(account)) =~= accounts_view(accounts@).push(
                    account@,
                ));
                accounts.push(account);
            },
            Err(e) => {
                proof {
                    lemma_accounts_of_prefix_error(all, i + 1);
                }
                return Err(e);
            },
        }
        i += 1;
    }
    assert(all.take(items.len() as int) =~= all);
    Ok(accounts)
}

/// Where the accounts of the first `k` items are rejected, the accounts of
/// all items are rejected for the same reason.
pub proof fn lemma_accounts_of_prefix_error(items: Seq<JsonView>, k: int)
    requires
        0 <= k <= items.len(),
        accounts_of(items.take(k)) is Err,
    ensures
        accounts_of(items) == accounts_of(items.take(k)),
    decreases items.len() - k,
{
    if k == items.len() {
        assert(items.take(k) =~= items);
    } else {
        assert(items.take(k + 1).drop_last() =~= items.take(k));
        lemma_accounts_of_prefix_error(items, k + 1);
    }
}

/// Reads the list of accounts under the member `key`; none where the member
/// is absent or null.
fn read_optional_accounts(members: &Vec<(String, Json)>, key: &'static str) -> (r: Result<
    Option<Vec<KeyedUiAccount>>,
    DecodeError,
>)
    ensures
        match r {
            Ok(accounts) => optional_accounts(members_of(members@), key) == accepted(
                optional_accounts_view(accounts),
            ),
            Err(e) => optional_accounts(members_of(members@), key) == rejected::<
                Option<Seq<KeyedUiAccountView>>,
            >(e),
        },
{
    match find_optional(members, key) {
        Some(Json::Array(items)) => match read_accounts(items) {
            Ok(accounts) => Ok(Some(accounts)),
            Err(e) => Err(e.in_field(key)),
        },
        Some(_) => Err(DecodeError { kind: ErrorKind::UnexpectedType, field: key }),
        None => Ok(None),
    }
}

/// Writes a list of accounts that may be absent.
fn write_optional_accounts(accounts: &Option<Vec<KeyedUiAccount>>) -> (j: Json)
    ensures
        j@ == optional_wire_accounts(optional_accounts_view(*accounts)),
{
    match accounts {
        Some(accounts) => {
            let mut items: Vec<Json> = Vec::new();
            let mut i: usize = 0;
            while i < accounts.len()
                invariant
                    i <= accounts.len(),
                    items@.len() == i,
                    forall|k: int| 0 <= k < i ==> (#[trigger] items@[k])@ == accounts@[k]@.wire(),
                decreases accounts.len() - i,
            {
                items.push(accounts[i].serialize());
                i += 1;
            }
            assert(values_of(items@) =~= accounts_wire(accounts_view(accounts@)));
            Json::Array(items)
        },
        None => Json::Null,
    }
}

/// The policy for building a swap transaction.
#[derive(Clone, Debug, PartialEq)]
pub struct TransactionConfig {
    /// Wrap and unwrap SOL. Passed over where a destination token account is
    /// set, which may belong to someone else.
    pub wrap_and_unwrap_sol: bool,
    /// Allow the cheaper way to set up the wrapped-SOL token account.
    pub allow_optimized_wrapped_sol_token_account: bool,
    /// The token account that collects the platform fee.
    pub fee_account: Option<Pubkey>,
    /// The token account that receives the output; the user's own where absent.
    pub destination_token_account: Option<Pubkey>,
    /// A read-only account added to the transaction for tracking.
    pub tracking_account: Option<Pubkey>,
    /// The price of a compute unit. Excludes a prioritization fee.
    pub compute_unit_price_micro_lamports: Option<ComputeUnitPriceMicroLamports>,
    /// The fee paid for priority. Excludes a compute-unit price.
    pub prioritization_fee_lamports: Option<PrioritizationFeeLamports>,
    /// Simulate the swap to set the compute-unit limit.
    pub dynamic_compute_unit_limit: bool,
    /// Ask for a legacy transaction.
    pub as_legacy_transaction: bool,
    /// Use the shared program accounts; the server decides where absent.
    pub use_shared_accounts: Option<bool>,
    /// Swap only what the token ledger records as added.
    pub use_token_ledger: bool,
    /// Assume that none of the user's accounts exist, without looking.
    pub skip_user_accounts_rpc_calls: bool,
    /// Accounts of markets that the server has not cached.
    pub keyed_ui_accounts: Option<Vec<KeyedUiAccount>>,
    /// Which program authority to use.
    pub program_authority_id: Option<u8>,
    /// Bounds for a slippage that the server picks.
    pub dynamic_slippage: Option<DynamicSlippageSettings>,
    /// How many slots remain before the blockhash expires.
    pub blockhash_slots_to_expiry: Option<u8>,
    /// Ask for the corrected last valid block height.
    pub correct_last_valid_block_height: bool,
}

/// The mathematical value of a [`TransactionConfig`].
pub struct TransactionConfigView {
    pub wrap_and_unwrap_sol: bool,
    pub allow_optimized_wrapped_sol_token_account: bool,
    pub fee_account: Option<Pubkey>,
    pub destination_token_account: Option<Pubkey>,
    pub tracking_account: Option<Pubkey>,
    pub compute_unit_price_micro_lamports: Option<ComputeUnitPriceMicroLamports>,
    pub prioritization_fee_lamports: Option<PrioritizationFeeLamports>,
    pub dynamic_compute_unit_limit: bool,
    pub as_legacy_transaction: bool,
    pub use_shared_accounts: Option<bool>,
    pub use_token_ledger: bool,
    pub skip_user_accounts_rpc_calls: bool,
    pub keyed_ui_accounts: Option<Seq<KeyedUiAccountView>>,
    pub program_authority_id: Option<u8>,
    pub dynamic_slippage: Option<DynamicSlippageSettings>,
    pub blockhash_slots_to_expiry: Option<u8>,
    pub correct_last_valid_block_height: bool,
}

impl View for TransactionConfig {
    type V = TransactionConfigView;

    open spec fn view(&self) -> TransactionConfigView {
        TransactionConfigView {
            wrap_and_unwrap_sol: self.wrap_and_unwrap_sol,
            allow_optimized_wrapped_sol_token_account: self
                .allow_optimized_wrapped_sol_token_account,
            fee_account: self.fee_account,
            destination_token_account: self.destination_token_account,
            tracking_account: self.tracking_account,
            compute_unit_price_micro_lamports: self.compute_unit_price_micro_lamports,
            prioritization_fee_lamports: self.prioritization_fee_lamports,
            dynamic_compute_unit_limit: self.dynamic_compute_unit_limit,
            as_legacy_transaction: self.as_legacy_transaction,
            use_shared_accounts: self.use_shared_accounts,
            use_token_ledger: self.use_token_ledger,
            skip_user_accounts_rpc_calls: self.skip_user_accounts_rpc_calls,
            keyed_ui_accounts: optional_accounts_view(self.keyed_ui_accounts),
            program_authority_id: self.program_authority_id,
            dynamic_slippage: self.dynamic_slippage,
            blockhash_slots_to_expiry: self.blockhash_slots_to_expiry,
            correct_last_valid_block_height: self.correct_last_valid_block_height,
        }
    }
}

impl TransactionConfigView {
    /// The policy of a caller who sets nothing: SOL is wrapped and
    /// unwrapped, every other switch is off, and nothing optional is set.
    pub open spec fn default_value() -> TransactionConfigView {
        TransactionConfigView {
            wrap_and_unwrap_sol: true,
            allow_optimized_wrapped_sol_token_account: false,
            fee_account: None,
            destination_token_account: None,
            tracking_account: None,
            compute_unit_price_micro_lamports: None,
            prioritization_fee_lamports: None,
            dynamic_compute_unit_limit: false,
            as_legacy_transaction: false,
            use_shared_accounts: None,
            use_token_ledger: false,
            skip_user_accounts_rpc_calls: false,
            keyed_ui_accounts: None,
            program_authority_id: None,
            dynamic_slippage: None,
            blockhash_slots_to_expiry: None,
            correct_last_valid_block_height: false,
        }
    }

    /// The document of the policy: an object with every member, in the
    /// order of the fields, and null for what is absent.
    pub open spec fn wire(self) -> JsonView {
        JsonView::Object(
            Members::empty()
                .push(("wrapAndUnwrapSol"@, JsonView::Bool(self.wrap_and_unwrap_sol)))
                .push(("allowOptimizedWrappedSolTokenAccount"@,
                    JsonView::Bool(self.allow_optimized_wrapped_sol_token_account)))
                .push(("feeAccount"@, optional_wire_pubkey(self.fee_account)))
                .push(("destinationTokenAccount"@,
                    optional_wire_pubkey(self.destination_token_account)))
                .push(("trackingAccount"@, optional_wire_pubkey(self.tracking_account)))
                .push(("computeUnitPriceMicroLamports"@,
                    optional_wire_price(self.compute_unit_price_micro_lamports)))
                .push(("prioritizationFeeLamports"@,
                    optional_wire_fee(self.prioritization_fee_lamports)))
                .push(("dynamicComputeUnitLimit"@, JsonView::Bool(self.dynamic_compute_unit_limit)))
                .push(("asLegacyTransaction"@, JsonView::Bool(self.as_legacy_transaction)))
                .push(("useSharedAccounts"@, optional_wire_bool(self.use_shared_accounts)))
                .push(("useTokenLedger"@, JsonView::Bool(self.use_token_ledger)))
                .push(("skipUserAccountsRpcCalls"@,
                    JsonView::Bool(self.skip_user_accounts_rpc_calls)))
                .push(("keyedUiAccounts"@, optional_wire_accounts(self.keyed_ui_accounts)))
                .push(("programAuthorityId"@, optional_wire_u8(self.program_authority_id)))
                .push(("dynamicSlippage"@, optional_wire_slippage(self.dynamic_slippage)))
                .push(("blockhashSlotsToExpiry"@, optional_wire_u8(self.blockhash_slots_to_expiry)))
                .push(("correctLastValidBlockHeight"@,
                    JsonView::Bool(self.correct_last_valid_block_height))),
        )
    }

    /// The policy that the members of an object give: every member that is
    /// absent leaves its field at the default; of the members that are
    /// rejected, the first in the order of the fields decides.
    pub open spec fn of_members(members: Members) -> Result<TransactionConfigView, DecodeError> {
        let wrap_and_unwrap_sol = bool_or(members, "wrapAndUnwrapSol", true);
        let allow_optimized_wrapped_sol_token_account = bool_or(members,
            "allowOptimizedWrappedSolTokenAccount", false);
        let fee_account = optional_pubkey(members, "feeAccount");
        let destination_token_account = optional_pubkey(members, "destinationTokenAccount");
        let tracking_account = optional_pubkey(members, "trackingAccount");
        let compute_unit_price_micro_lamports = optional_price(members,
            "computeUnitPriceMicroLamports");
        let prioritization_fee_lamports = optional_fee(members, "prioritizationFeeLamports");
        let dynamic_compute_unit_limit = bool_or(members, "dynamicComputeUnitLimit", false);
        let as_legacy_transaction = bool_or(members, "asLegacyTransaction", false);
        let use_shared_accounts = optional_bool(members, "useSharedAccounts");
        let use_token_ledger = bool_or(members, "useTokenLedger", false);
        let skip_user_accounts_rpc_calls = bool_or(members, "skipUserAccountsRpcCalls", false);
        let keyed_ui_accounts = optional_accounts(members, "keyedUiAccounts");
        let program_authority_id = optional_u8(members, "programAuthorityId");
        let dynamic_slippage = optional_slippage(members, "dynamicSlippage");
        let blockhash_slots_to_expiry = optional_u8(members, "blockhashSlotsToExpiry");
        let correct_last_valid_block_height = bool_or(members, "correctLastValidBlockHeight",
            false);
        if wrap_and_unwrap_sol is Err {
            Err(wrap_and_unwrap_sol->Err_0)
        } else if allow_optimized_wrapped_sol_token_account is Err {
            Err(allow_optimized_wrapped_sol_token_account->Err_0)
        } else if fee_account is Err {
            Err(fee_account->Err_0)
        } else if destination_token_account is Err {
            Err(destination_token_account->Err_0)
        } else if tracking_account is Err {
            Err(tracking_account->Err_0)
        } else if compute_unit_price_micro_lamports is Err {
            Err(compute_unit_price_micro_lamports->Err_0)
        } else if prioritization_fee_lamports is Err {
            Err(prioritization_fee_lamports->Err_0)
        } else if dynamic_compute_unit_limit is Err {
            Err(dynamic_compute_unit_limit->Err_0)
        } else if as_legacy_transaction is Err {
            Err(as_legacy_transaction->Err_0)
        } else if use_shared_accounts is Err {
            Err(use_shared_accounts->Err_0)
        } else if use_token_ledger is Err {
            Err(use_token_ledger->Err_0)
        } else if skip_user_accounts_rpc_calls is Err {
            Err(skip_user_accounts_rpc_calls->Err_0)
        } else if keyed_ui_accounts is Err {
            Err(keyed_ui_accounts->Err_0)
        } else if program_authority_id is Err {
            Err(program_authority_id->Err_0)
        } else if dynamic_slippage is Err {
            Err(dynamic_slippage->Err_0)
        } else if blockhash_slots_to_expiry is Err {
            Err(blockhash_slots_to_expiry->Err_0)
        } else if correct_last_valid_block_height is Err {
            Err(correct_last_valid_block_height->Err_0)
        } else {
            Ok(
                TransactionConfigView {
                    wrap_and_unwrap_sol: wrap_and_unwrap_sol->Ok_0,
                    allow_optimized_wrapped_sol_token_account:
                        allow_optimized_wrapped_sol_token_account->Ok_0,
                    fee_account: fee_account->Ok_0,
                    destination_token_account: destination_token_account->Ok_0,
                    tracking_account: tracking_account->Ok_0,
                    compute_unit_price_micro_lamports: compute_unit_price_micro_lamports->Ok_0,
                    prioritization_fee_lamports: prioritization_fee_lamports->Ok_0,
                    dynamic_compute_unit_limit: dynamic_compute_unit_limit->Ok_0,
                    as_legacy_transaction: as_legacy_transaction->Ok_0,
                    use_shared_accounts: use_shared_accounts->Ok_0,
                    use_token_ledger: use_token_ledger->Ok_0,
                    skip_user_accounts_rpc_calls: skip_user_accounts_rpc_calls->Ok_0,
                    keyed_ui_accounts: keyed_ui_accounts->Ok_0,
                    program_authority_id: program_authority_id->Ok_0,
                    dynamic_slippage: dynamic_slippage->Ok_0,
                    blockhash_slots_to_expiry: blockhash_slots_to_expiry->Ok_0,
                    correct_last_valid_block_height: correct_last_valid_block_height->Ok_0,
                },
            )
        }
    }

    /// The policy that a document holds: an object, read by its members.
    pub open spec fn of_wire(j: JsonView) -> Result<TransactionConfigView, DecodeError> {
        match j {
            JsonView::Object(members) => TransactionConfigView::of_members(members),
            _ => Err(DecodeError::bare(ErrorKind::UnexpectedType)),
        }
    }

    /// Whether what stands inside the policy is read back from what is
    /// written for it: each identifier from its text, each account from its
    /// document.
    pub open spec fn parts_round_trip(self) -> bool {
        &&& optional_key_round_trips(self.fee_account)
        &&& optional_key_round_trips(self.destination_token_account)
        &&& optional_key_round_trips(self.tracking_account)
        &&& self.keyed_ui_accounts matches Some(accounts) ==> accounts_round_trip(accounts)
    }

    /// Each member of the document of a policy is found under its key.
    pub proof fn lemma_wire_members(self)
        ensures
            member(self.wire()->Object_0, "wrapAndUnwrapSol"@)
                == Some(JsonView::Bool(self.wrap_and_unwrap_sol)),
            member(self.wire()->Object_0, "allowOptimizedWrappedSolTokenAccount"@)
                == Some(JsonView::Bool(self.allow_optimized_wrapped_sol_token_account)),
            member(self.wire()->Object_0, "feeAccount"@)
                == Some(optional_wire_pubkey(self.fee_account)),
            member(self.wire()->Object_0, "destinationTokenAccount"@)
                == Some(optional_wire_pubkey(self.destination_token_account)),
            member(self.wire()->Object_0, "trackingAccount"@)
                == Some(optional_wire_pubkey(self.tracking_account)),
            member(self.wire()->Object_0, "computeUnitPriceMicroLamports"@)
                == Some(optional_wire_price(self.compute_unit_price_micro_lamports)),
            member(self.wire()->Object_0, "prioritizationFeeLamports"@)
                == Some(optional_wire_fee(self.prioritization_fee_lamports)),
            member(self.wire()->Object_0, "dynamicComputeUnitLimit"@)
                == Some(JsonView::Bool(self.dynamic_compute_unit_limit)),
            member(self.wire()->Object_0, "asLegacyTransaction"@)
                == Some(JsonView::Bool(self.as_legacy_transaction)),
            member(self.wire()->Object_0, "useSharedAccounts"@)
                == Some(optional_wire_bool(self.use_shared_accounts)),
            member(self.wire()->Object_0, "useTokenLedger"@)
                == Some(JsonView::Bool(self.use_token_ledger)),
            member(self.wire()->Object_0, "skipUserAccountsRpcCalls"@)
                == Some(JsonView::Bool(self.skip_user_accounts_rpc_calls)),
            member(self.wire()->Object_0, "keyedUiAccounts"@)
                == Some(optional_wire_accounts(self.keyed_ui_accounts)),
            member(self.wire()->Object_0, "programAuthorityId"@)
                == Some(optional_wire_u8(self.program_authority_id)),
            member(self.wire()->Object_0, "dynamicSlippage"@)
                == Some(optional_wire_slippage(self.dynamic_slippage)),
            member(self.wire()->Object_0, "blockhashSlotsToExpiry"@)
                == Some(optional_wire_u8(self.blockhash_slots_to_expiry)),
            member(self.wire()->Object_0, "correctLastValidBlockHeight"@)
                == Some(JsonView::Bool(self.correct_last_valid_block_height)),
    {
        reveal_strlit("wrapAndUnwrapSol");
        reveal_strlit("allowOptimizedWrappedSolTokenAccount");
        reveal_strlit("feeAccount");
        reveal_strlit("destinationTokenAccount");
        reveal_strlit("trackingAccount");
        reveal_strlit("computeUnitPriceMicroLamports");
        reveal_strlit("prioritizationFeeLamports");
        reveal_strlit("dynamicComputeUnitLimit");
        reveal_strlit("asLegacyTransaction");
        reveal_strlit("useSharedAccounts");
        reveal_strlit("useTokenLedger");
        reveal_strlit("skipUserAccountsRpcCalls");
        reveal_strlit("keyedUiAccounts");
        reveal_strlit("programAuthorityId");
        reveal_strlit("dynamicSlippage");
        reveal_strlit("blockhashSlotsToExpiry");
        reveal_strlit("correctLastValidBlockHeight");
        assert("wrapAndUnwrapSol"@.len() == 16 && "allowOptimizedWrappedSolTokenAccount"@.len()
            == 36 && "feeAccount"@.len() == 10 && "destinationTokenAccount"@.len() == 23
            && "trackingAccount"@.len() == 15 && "computeUnitPriceMicroLamports"@.len() == 29
            && "prioritizationFeeLamports"@.len() == 25 && "dynamicComputeUnitLimit"@.len() == 23
            && "asLegacyTransaction"@.len() == 19 && "useSharedAccounts"@.len() == 17
            && "useTokenLedger"@.len() == 14 && "skipUserAccountsRpcCalls"@.len() == 24
            && "keyedUiAccounts"@.len() == 15 && "programAuthorityId"@.len() == 18
            && "dynamicSlippage"@.len() == 15 && "blockhashSlotsToExpiry"@.len() == 22
            && "correctLastValidBlockHeight"@.len() == 27);
        assert("destinationTokenAccount"@[1] != "dynamicComputeUnitLimit"@[1]);
        assert("trackingAccount"@[0] != "keyedUiAccounts"@[0] && "trackingAccount"@[0]
            != "dynamicSlippage"@[0] && "keyedUiAccounts"@[0] != "dynamicSlippage"@[0]);
        let m0 = Members::empty();
        lemma_member_push(m0, "wrapAndUnwrapSol"@, JsonView::Bool(self.wrap_and_unwrap_sol));
        let m1 = m0.push(("wrapAndUnwrapSol"@, JsonView::Bool(self.wrap_and_unwrap_sol)));
        lemma_member_push(m1, "allowOptimizedWrappedSolTokenAccount"@,
            JsonView::Bool(self.allow_optimized_wrapped_sol_token_account));
        let m2 = m1.push(("allowOptimizedWrappedSolTokenAccount"@,
            JsonView::Bool(self.allow_optimized_wrapped_sol_token_account)));
        lemma_member_push(m2, "feeAccount"@, optional_wire_pubkey(self.fee_account));
        let m3 = m2.push(("feeAccount"@, optional_wire_pubkey(self.fee_account)));
        lemma_member_push(m3, "destinationTokenAccount"@,
            optional_wire_pubkey(self.destination_token_account));
        let m4 = m3.push(("destinationTokenAccount"@,
            optional_wire_pubkey(self.destination_token_account)));
        lemma_member_push(m4, "trackingAccount"@, optional_wire_pubkey(self.tracking_account));
        let m5 = m4.push(("trackingAccount"@, optional_wire_pubkey(self.tracking_account)));
        lemma_member_push(m5, "computeUnitPriceMicroLamports"@,
            optional_wire_price(self.compute_unit_price_micro_lamports));
        let m6 = m5.push(("computeUnitPriceMicroLamports"@,
            optional_wire_price(self.compute_unit_price_micro_lamports)));
        lemma_member_push(m6, "prioritizationFeeLamports"@,
            optional_wire_fee(self.prioritization_fee_lamports));
        let m7 = m6.push(("prioritizationFeeLamports"@,
            optional_wire_fee(self.prioritization_fee_lamports)));
        lemma_member_push(m7, "dynamicComputeUnitLimit"@,
            JsonView::Bool(self.dynamic_compute_unit_limit));
        let m8 = m7.push(("dynamicComputeUnitLimit"@,
            JsonView::Bool(self.dynamic_compute_unit_limit)));
        lemma_member_push(m8, "asLegacyTransaction"@, JsonView::Bool(self.as_legacy_transaction));
        let m9 = m8.push(("asLegacyTransaction"@, JsonView::Bool(self.as_legacy_transaction)));
        lemma_member_push(m9, "useSharedAccounts"@, optional_wire_bool(self.use_shared_accounts));
        let m10 = m9.push(("useSharedAccounts"@, optional_wire_bool(self.use_shared_accounts)));
        lemma_member_push(m10, "useTokenLedger"@, JsonView::Bool(self.use_token_ledger));
        let m11 = m10.push(("useTokenLedger"@, JsonView::Bool(self.use_token_ledger)));
        lemma_member_push(m11, "skipUserAccountsRpcCalls"@,
            JsonView::Bool(self.skip_user_accounts_rpc_calls));
        let m12 = m11.push(("skipUserAccountsRpcCalls"@,
            JsonView::Bool(self.skip_user_accounts_rpc_calls)));
        lemma_member_push(m12, "keyedUiAccounts"@, optional_wire_accounts(self.keyed_ui_accounts));
        let m13 = m12.push(("keyedUiAccounts"@, optional_wire_accounts(self.keyed_ui_accounts)));
        lemma_member_push(m13, "programAuthorityId"@, optional_wire_u8(self.program_authority_id));
        let m14 = m13.push(("programAuthorityId"@, optional_wire_u8(self.program_authority_id)));
        lemma_member_push(m14, "dynamicSlippage"@, optional_wire_slippage(self.dynamic_slippage));
        let m15 = m14.push(("dynamicSlippage"@, optional_wire_slippage(self.dynamic_slippage)));
        lemma_member_push(m15, "blockhashSlotsToExpiry"@,
            optional_wire_u8(self.blockhash_slots_to_expiry));
        let m16 = m15.push(("blockhashSlotsToExpiry"@,
            optional_wire_u8(self.blockhash_slots_to_expiry)));
        lemma_member_push(m16, "correctLastValidBlockHeight"@,
            JsonView::Bool(self.correct_last_valid_block_height));
        let m17 = m16.push(("correctLastValidBlockHeight"@,
            JsonView::Bool(self.correct_last_valid_block_height)));
        assert(self.wire()->Object_0 == m17);
    }

    /// The document of a policy loses nothing: where the parts are read back
    /// from what is written for them, the policy is read back from its
    /// document.
    pub proof fn lemma_round_trip(self)
        ensures
            self.parts_round_trip() ==> TransactionConfigView::of_wire(self.wire())
                == accepted(self),
    {
        if self.parts_round_trip() {
            let members = self.wire()->Object_0;
            self.lemma_wire_members();
            if let Some(price) = self.compute_unit_price_micro_lamports {
                price.lemma_round_trip();
            }
            if let Some(fee) = self.prioritization_fee_lamports {
                fee.lemma_round_trip();
            }
            if let Some(settings) = self.dynamic_slippage {
                settings.lemma_round_trip();
            }
            if let Some(accounts) = self.keyed_ui_accounts {
                lemma_accounts_round_trip(accounts);
            }
            assert(bool_or(members, "wrapAndUnwrapSol", true)
                == accepted(self.wrap_and_unwrap_sol));
            assert(bool_or(members, "allowOptimizedWrappedSolTokenAccount", false)
                == accepted(self.allow_optimized_wrapped_sol_token_account));
            assert(optional_pubkey(members, "feeAccount") == accepted(self.fee_account));
            assert(optional_pubkey(members, "destinationTokenAccount")
                == accepted(self.destination_token_account));
            assert(optional_pubkey(members, "trackingAccount") == accepted(self.tracking_account));
            assert(optional_price(members, "computeUnitPriceMicroLamports")
                == accepted(self.compute_unit_price_micro_lamports));
            assert(optional_fee(members, "prioritizationFeeLamports")
                == accepted(self.prioritization_fee_lamports));
            assert(bool_or(members, "dynamicComputeUnitLimit", false)
                == accepted(self.dynamic_compute_unit_limit));
            assert(bool_or(members, "asLegacyTransaction", false)
                == accepted(self.as_legacy_transaction));
            assert(optional_bool(members, "useSharedAccounts")
                == accepted(self.use_shared_accounts));
            assert(bool_or(members, "useTokenLedger", false) == accepted(self.use_token_ledger));
            assert(bool_or(members, "skipUserAccountsRpcCalls", false)
                == accepted(self.skip_user_accounts_rpc_calls));
            assert(optional_accounts(members, "keyedUiAccounts")
                == accepted(self.keyed_ui_accounts));
            assert(optional_u8(members, "programAuthorityId")
                == accepted(self.program_authority_id));
            assert(optional_slippage(members, "dynamicSlippage")
                == accepted(self.dynamic_slippage));
            assert(optional_u8(members, "blockhashSlotsToExpiry")
                == accepted(self.blockhash_slots_to_expiry));
            assert(bool_or(members, "correctLastValidBlockHeight", false)
                == accepted(self.correct_last_valid_block_height));
        }
    }

    /// A policy that sets no identifier, and whose accounts have states free
    /// of own keys and parameters that are absent or not null, is read back
    /// from its document.
    pub proof fn lemma_round_trip_without_identifiers(self)
        requires
            self.fee_account is None,
            self.destination_token_account is None,
            self.tracking_account is None,
            self.keyed_ui_accounts matches Some(accounts) ==> accounts_round_trip(accounts),
        ensures
            TransactionConfigView::of_wire(self.wire()) == accepted(self),
    {
        self.lemma_round_trip();
    }

    /// The object without members holds the default policy.
    pub proof fn lemma_empty_object_is_default()
        ensures
            TransactionConfigView::of_wire(JsonView::Object(Members::empty()))
                == accepted(TransactionConfigView::default_value()),
    {
    }
}

impl Default for TransactionConfig {
    /// The policy of a caller who sets nothing.
    fn default() -> (config: TransactionConfig)
        ensures
            config@ == TransactionConfigView::default_value(),
    {
        TransactionConfig {
            wrap_and_unwrap_sol: true,
            allow_optimized_wrapped_sol_token_account: false,
            fee_account: None,
            destination_token_account: None,
            tracking_account: None,
            compute_unit_price_micro_lamports: None,
            prioritization_fee_lamports: None,
            dynamic_compute_unit_limit: false,
            as_legacy_transaction: false,
            use_shared_accounts: None,
            use_token_ledger: false,
            skip_user_accounts_rpc_calls: false,
            keyed_ui_accounts: None,
            program_authority_id: None,
            dynamic_slippage: None,
            blockhash_slots_to_expiry: None,
            correct_last_valid_block_height: false,
        }
    }
}

impl TransactionConfig {
    /// Checks that what stands inside the policy is read back from what is
    /// written for it.
    pub fn parts_round_trip(&self) -> (ok: bool)
        ensures
            ok == self@.parts_round_trip(),
    {
        check_optional_key(&self.fee_account) && check_optional_key(
            &self.destination_token_account,
        ) && check_optional_key(&self.tracking_account) && match &self.keyed_ui_accounts {
            Some(accounts) => check_accounts(accounts),
            None => true,
        }
    }

    /// Writes the policy. Where the parts are read back from what is written
    /// for them, the policy is read back from this document.
    pub fn serialize(&self) -> (j: Json)
        ensures
            j@ == self@.wire(),
            self@.parts_round_trip() ==> TransactionConfigView::of_wire(j@) == accepted(self@),
    {
        proof {
            self@.lemma_round_trip();
        }
        let mut members = new_members();
        push_member(&mut members, "wrapAndUnwrapSol", Json::Bool(self.wrap_and_unwrap_sol));
        push_member(&mut members, "allowOptimizedWrappedSolTokenAccount",
            Json::Bool(self.allow_optimized_wrapped_sol_token_account));
        push_member(&mut members, "feeAccount", write_optional_pubkey(&self.fee_account));
        push_member(&mut members, "destinationTokenAccount",
            write_optional_pubkey(&self.destination_token_account));
        push_member(&mut members, "trackingAccount", write_optional_pubkey(&self.tracking_account));
        push_member(&mut members, "computeUnitPriceMicroLamports",
            write_optional_price(&self.compute_unit_price_micro_lamports));
        push_member(&mut members, "prioritizationFeeLamports",
            write_optional_fee(&self.prioritization_fee_lamports));
        push_member(&mut members, "dynamicComputeUnitLimit",
            Json::Bool(self.dynamic_compute_unit_limit));
        push_member(&mut members, "asLegacyTransaction", Json::Bool(self.as_legacy_transaction));
        push_member(&mut members, "useSharedAccounts",
            write_optional_bool(self.use_shared_accounts));
        push_member(&mut members, "useTokenLedger", Json::Bool(self.use_token_ledger));
        push_member(&mut members, "skipUserAccountsRpcCalls",
            Json::Bool(self.skip_user_accounts_rpc_calls));
        push_member(&mut members, "keyedUiAccounts",
            write_optional_accounts(&self.keyed_ui_accounts));
        push_member(&mut members, "programAuthorityId",
            write_optional_u8(self.program_authority_id));
        push_member(&mut members, "dynamicSlippage",
            write_optional_slippage(&self.dynamic_slippage));
        push_member(&mut members, "blockhashSlotsToExpiry",
            write_optional_u8(self.blockhash_slots_to_expiry));
        push_member(&mut members, "correctLastValidBlockHeight",
            Json::Bool(self.correct_last_valid_block_height));
        Json::Object(members)
    }

    /// Reads a policy; what the document leaves out is at its default.
    pub fn deserialize(j: &Json) -> (r: Result<TransactionConfig, DecodeError>)
        ensures
            decoded(r, TransactionConfigView::of_wire(j@)),
    {
        match j {
            Json::Object(members) => {
                let wrap_and_unwrap_sol = read_bool_or(members, "wrapAndUnwrapSol", true)?;
                let allow_optimized_wrapped_sol_token_account = read_bool_or(members,
                    "allowOptimizedWrappedSolTokenAccount", false)?;
                let fee_account = read_optional_pubkey(members, "feeAccount")?;
                let destination_token_account = read_optional_pubkey(members,
                    "destinationTokenAccount")?;
                let tracking_account = read_optional_pubkey(members, "trackingAccount")?;
                let compute_unit_price_micro_lamports = read_optional_price(members,
                    "computeUnitPriceMicroLamports")?;
                let prioritization_fee_lamports = read_optional_fee(members,
                    "prioritizationFeeLamports")?;
                let dynamic_compute_unit_limit = read_bool_or(members, "dynamicComputeUnitLimit",
                    false)?;
                let as_legacy_transaction = read_bool_or(members, "asLegacyTransaction", false)?;
                let use_shared_accounts = read_optional_bool(members, "useSharedAccounts")?;
                let use_token_ledger = read_bool_or(members, "useTokenLedger", false)?;
                let skip_user_accounts_rpc_calls = read_bool_or(members,
                    "skipUserAccountsRpcCalls", false)?;
                let keyed_ui_accounts = read_optional_accounts(members, "keyedUiAccounts")?;
                let program_authority_id = read_optional_u8(members, "programAuthorityId")?;
                let dynamic_slippage = read_optional_slippage(members, "dynamicSlippage")?;
                let blockhash_slots_to_expiry = read_optional_u8(members,
                    "blockhashSlotsToExpiry")?;
                let correct_last_valid_block_height = read_bool_or(members,
                    "correctLastValidBlockHeight", false)?;
                Ok(
                    TransactionConfig {
                        wrap_and_unwrap_sol,
                        allow_optimized_wrapped_sol_token_account,
                        fee_account,
                        destination_token_account,
                        tracking_account,
                        compute_unit_price_micro_lamports,
                        prioritization_fee_lamports,
                        dynamic_compute_unit_limit,
                        as_legacy_transaction,
                        use_shared_accounts,
                        use_token_ledger,
                        skip_user_accounts_rpc_calls,
                        keyed_ui_accounts,
                        program_authority_id,
                        dynamic_slippage,
                        blockhash_slots_to_expiry,
                        correct_last_valid_block_height,
                    },
                )
            },
            _ => Err(DecodeError::new(ErrorKind::UnexpectedType)),
        }
    }
}

} // verus!
