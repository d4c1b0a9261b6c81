//! How single values stand on the wire: what a decoder takes for a boolean,
//! a number of a given width, a text, an amount or an identifier, and what
//! an encoder writes for each.

use vstd::prelude::*;
use crate::amount::{amount_from_str, amount_of_text, amount_to_string, decimal_text};
use crate::error::{accepted, named, rejected, DecodeError, ErrorKind};
use crate::json::{find_member, member, members_of, Json, JsonView, Members, Number};
use crate::pubkey::Pubkey;

verus! {

/// The boolean that a document holds.
pub open spec fn bool_of(j: JsonView) -> Result<bool, ErrorKind> {
    match j {
        JsonView::Bool(b) => Ok(b),
        _ => Err(ErrorKind::UnexpectedType),
    }
}

/// The unsigned number of 64 bits that a document holds: an integer literal
/// without sign, no string and no number with a fraction.
pub open spec fn u64_of(j: JsonView) -> Result<u64, ErrorKind> {
    match j {
        JsonView::Number(Number::Unsigned(n)) => Ok(n),
        _ => Err(ErrorKind::UnexpectedType),
    }
}

/// The unsigned number of 32 bits that a document holds.
pub open spec fn u32_of(j: JsonView) -> Result<u32, ErrorKind> {
    match j {
        JsonView::Number(Number::Unsigned(n)) if n <= u32::MAX => Ok(n as u32),
        _ => Err(ErrorKind::UnexpectedType),
    }
}

/// The unsigned number of 16 bits that a document holds.
pub open spec fn u16_of(j: JsonView) -> Result<u16, ErrorKind> {
    match j {
        JsonView::Number(Number::Unsigned(n)) if n <= u16::MAX => Ok(n as u16),
        _ => Err(ErrorKind::UnexpectedType),
    }
}

/// The unsigned number of 8 bits that a document holds.
pub open spec fn u8_of(j: JsonView) -> Result<u8, ErrorKind> {
    match j {
        JsonView::Number(Number::Unsigned(n)) if n <= u8::MAX => Ok(n as u8),
        _ => Err(ErrorKind::UnexpectedType),
    }
}

/// The number that a document holds, of whatever form.
pub open spec fn number_of(j: JsonView) -> Result<Number, ErrorKind> {
    match j {
        JsonView::Number(n) => Ok(n),
        _ => Err(ErrorKind::UnexpectedType),
    }
}

/// The text that a string document holds.
pub open spec fn text_of(j: JsonView) -> Result<Seq<char>, ErrorKind> {
    match j {
        JsonView::Str(s) => Ok(s),
        _ => Err(ErrorKind::UnexpectedType),
    }
}

/// The amount that a document holds: a string that writes it in decimal.
pub open spec fn amount_of(j: JsonView) -> Result<u64, ErrorKind> {
    match j {
        JsonView::Str(s) => match amount_of_text(s) {
            Some(amount) => Ok(amount),
            None => Err(ErrorKind::MalformedAmount),
        },
        _ => Err(ErrorKind::UnexpectedType),
    }
}

/// The identifier that a document holds: a string that writes it in base 58.
pub open spec fn pubkey_of(j: JsonView) -> Result<Pubkey, ErrorKind> {
    match j {
        JsonView::Str(s) => match Pubkey::of_text(s) {
            Some(key) => Ok(key),
            None => Err(ErrorKind::MalformedIdentifier),
        },
        _ => Err(ErrorKind::UnexpectedType),
    }
}

/// The document of an amount: the string of its decimal text.
pub open spec fn amount_wire(amount: u64) -> JsonView {
    JsonView::Str(decimal_text(amount as nat))
}

/// The document of an identifier: the string of its base-58 text.
pub open spec fn pubkey_wire(key: Pubkey) -> JsonView {
    JsonView::Str(key.text())
}

/// The document of an unsigned number.
pub open spec fn unsigned_wire(n: u64) -> JsonView {
    JsonView::Number(Number::Unsigned(n))
}

/// An amount written and read back is the same amount, whatever its size.
pub proof fn lemma_amount_wire_round_trip(amount: u64)
    ensures
        amount_of(amount_wire(amount)) == Ok::<u64, ErrorKind>(amount),
{
    crate::amount::lemma_amount_round_trip(amount);
}

/// Whether what a reader gave is what the model gives: the same rejection,
/// or a value whose view is the model's value.
pub open spec fn decoded<T: View, E>(read: Result<T, E>, model: Result<T::V, E>) -> bool {
    match read {
        Ok(value) => model == Ok::<T::V, E>(value@),
        Err(e) => model == Err::<T::V, E>(e),
    }
}

/// Reads a boolean.
pub fn read_bool(j: &Json) -> (r: Result<bool, ErrorKind>)
    ensures
        r == bool_of(j@),
{
    match j {
        Json::Bool(b) => Ok(*b),
        _ => Err(ErrorKind::UnexpectedType),
    }
}

/// Reads an unsigned number of 64 bits.
pub fn read_u64(j: &Json) -> (r: Result<u64, ErrorKind>)
    ensures
        r == u64_of(j@),
{
    match j {
        Json::Number(Number::Unsigned(n)) => Ok(*n),
        _ => Err(ErrorKind::UnexpectedType),
    }
}

/// Reads an unsigned number of 32 bits.
pub fn read_u32(j: &Json) -> (r: Result<u32, ErrorKind>)
    ensures
        r == u32_of(j@),
{
    match j {
        Json::Number(Number::Unsigned(n)) => {
            if *n <= 0xffff_ffff {
                Ok(*n as u32)
            } else {
                Err(ErrorKind::UnexpectedType)
            }
        },
        _ => Err(ErrorKind::UnexpectedType),
    }
}

/// Reads an unsigned number of 16 bits.
pub fn read_u16(j: &Json) -> (r: Result<u16, ErrorKind>)
    ensures
        r == u16_of(j@),
{
    match j {
        Json::Number(Number::Unsigned(n)) => {
            if *n <= 0xffff {
                Ok(*n as u16)
            } else {
                Err(ErrorKind::UnexpectedType)
            }
        },
        _ => Err(ErrorKind::UnexpectedType),
    }
}

/// Reads an unsigned number of 8 bits.
pub fn read_u8(j: &Json) -> (r: Result<u8, ErrorKind>)
    ensures
        r == u8_of(j@),
{
    match j {
        Json::Number(Number::Unsigned(n)) => {
            if *n <= 0xff {
                Ok(*n as u8)
            } else {
                Err(ErrorKind::UnexpectedType)
            }
        },
        _ => Err(ErrorKind::UnexpectedType),
    }
}

/// Reads a number of whatever form.
pub fn read_number(j: &Json) -> (r: Result<Number, ErrorKind>)
    ensures
        r == number_of(j@),
{
    match j {
        Json::Number(n) => Ok(*n),
        _ => Err(ErrorKind::UnexpectedType),
    }
}

/// Reads a text.
pub fn read_text(j: &Json) -> (r: Result<String, ErrorKind>)
    ensures
        decoded(r, text_of(j@)),
{
    match j {
        Json::Str(s) => Ok(s.clone()),
        _ => Err(ErrorKind::UnexpectedType),
    }
}

/// Reads an amount from the string that writes it.
pub fn read_amount(j: &Json) -> (r: Result<u64, ErrorKind>)
    ensures
        r == amount_of(j@),
{
    match j {
        Json::Str(s) => match amount_from_str(s.as_str()) {
            Some(amount) => Ok(amount),
            None => Err(ErrorKind::MalformedAmount),
        },
        _ => Err(ErrorKind::UnexpectedType),
    }
}

/// Reads an identifier from the string that writes it.
pub fn read_pubkey(j: &Json) -> (r: Result<Pubkey, ErrorKind>)
    ensures
        r == pubkey_of(j@),
{
    match j {
        Json::Str(s) => match Pubkey::from_str(s.as_str()) {
            Some(key) => Ok(key),
            None => Err(ErrorKind::MalformedIdentifier),
        },
        _ => Err(ErrorKind::UnexpectedType),
    }
}

/// Writes an amount as the string of its decimal text.
pub fn write_amount(amount: u64) -> (j: Json)
    ensures
        j@ == amount_wire(amount),
{
    Json::Str(amount_to_string(amount))
}

/// Writes an identifier as the string of its base-58 text.
pub fn write_pubkey(key: &Pubkey) -> (j: Json)
    ensures
        j@ == pubkey_wire(*key),
{
    Json::Str(key.to_string())
}

/// Writes an unsigned number.
pub fn write_unsigned(n: u64) -> (j: Json)
    ensures
        j@ == unsigned_wire(n),
{
    Json::Number(Number::Unsigned(n))
}

/// Writes a text as a string.
pub fn write_text(text: &String) -> (j: Json)
    ensures
        j@ == JsonView::Str(text@),
{
    Json::Str(text.clone())
}

/// The value of the member `key`, which has to be present.
pub open spec fn required(members: Members, key: &'static str) -> Result<JsonView, DecodeError> {
    match member(members, key@) {
        Some(value) => Ok(value),
        None => Err(DecodeError::at(ErrorKind::MissingField, key)),
    }
}

/// The value of the member `key` where it is present and not null.
pub open spec fn optional(members: Members, key: &'static str) -> Option<JsonView> {
    match member(members, key@) {
        Some(JsonView::Null) => None,
        Some(value) => Some(value),
        None => None,
    }
}

/// Finds the member `key`, which has to be present.
pub fn find_required<'a>(members: &'a Vec<(String, Json)>, key: &'static str) -> (r: Result<
    &'a Json,
    DecodeError,
>)
    ensures
        match r {
            Ok(value) => required(members_of(members@), key) == accepted(value@),
            Err(e) => required(members_of(members@), key) == rejected::<JsonView>(e),
        },
{
    match find_member(members, key) {
        Some(value) => Ok(value),
        None => Err(DecodeError { kind: ErrorKind::MissingField, field: key }),
    }
}

/// Finds the member `key` where it is present and not null.
pub fn find_optional<'a>(members: &'a Vec<(String, Json)>, key: &'static str) -> (r: Option<
    &'a Json,
>)
    ensures
        match r {
            Some(value) => optional(members_of(members@), key) == Some(value@),
            None => optional(members_of(members@), key) is None,
        },
{
    match find_member(members, key) {
        Some(Json::Null) => None,
        Some(value) => Some(value),
        None => None,
    }
}

/// Gives a reader's rejection the name of the member it read.
pub fn name_error<T>(read: Result<T, ErrorKind>, field: &'static str) -> (r: Result<T, DecodeError>)
    ensures
        r == named(read, field),
{
    match read {
        Ok(value) => Ok(value),
        Err(kind) => Err(DecodeError { kind, field }),
    }
}

/// The amount under the member `key`, which has to be present.
pub open spec fn required_amount(members: Members, key: &'static str) -> Result<u64, DecodeError> {
    match required(members, key) {
        Ok(value) => named(amount_of(value), key),
        Err(e) => Err(e),
    }
}

/// Reads the amount under the member `key`, which has to be present.
pub fn read_required_amount(members: &Vec<(String, Json)>, key: &'static str) -> (r: Result<
    u64,
    DecodeError,
>)
    ensures
        r == required_amount(members_of(members@), key),
{
    match find_required(members, key) {
        Ok(value) => name_error(read_amount(value), key),
        Err(e) => Err(e),
    }
}

/// The identifier under the member `key`, which has to be present.
pub open spec fn required_pubkey(members: Members, key: &'static str) -> Result<Pubkey,
    DecodeError> {
    match required(members, key) {
        Ok(value) => named(pubkey_of(value), key),
        Err(e) => Err(e),
    }
}

/// Reads the identifier under the member `key`, which has to be present.
pub fn read_required_pubkey(members: &Vec<(String, Json)>, key: &'static str) -> (r: Result<
    Pubkey,
    DecodeError,
>)
    ensures
        r == required_pubkey(members_of(members@), key),
{
    match find_required(members, key) {
        Ok(value) => name_error(read_pubkey(value), key),
        Err(e) => Err(e),
    }
}

/// The number of 8 bits under the member `key`, which has to be present.
pub open spec fn required_u8(members: Members, key: &'static str) -> Result<u8, DecodeError> {
    match required(members, key) {
        Ok(value) => named(u8_of(value), key),
        Err(e) => Err(e),
    }
}

/// Reads the number of 8 bits under the member `key`, which has to be present.
pub fn read_required_u8(members: &Vec<(String, Json)>, key: &'static str) -> (r: Result<
    u8,
    DecodeError,
>)
    ensures
        r == required_u8(members_of(members@), key),
{
    match find_required(members, key) {
        Ok(value) => name_error(read_u8(value), key),
        Err(e) => Err(e),
    }
}

/// The number of 16 bits under the member `key`, which has to be present.
pub open spec fn required_u16(members: Members, key: &'static str) -> Result<u16, DecodeError> {
    match required(members, key) {
        Ok(value) => named(u16_of(value), key),
        Err(e) => Err(e),
    }
}

/// Reads the number of 16 bits under the member `key`, which has to be present.
pub fn read_required_u16(members: &Vec<(String, Json)>, key: &'static str) -> (r: Result<
    u16,
    DecodeError,
>)
    ensures
        r == required_u16(members_of(members@), key),
{
    match find_required(members, key) {
        Ok(value) => name_error(read_u16(value), key),
        Err(e) => Err(e),
    }
}

/// The number of 8 bits under the member `key`; none where the member is absent or null.
pub open spec fn optional_u8(members: Members, key: &'static str) -> Result<
    Option<u8>,
    DecodeError,
> {
    match optional(members, key) {
        Some(value) => match u8_of(value) {
            Ok(read) => Ok(Some(read)),
            Err(kind) => Err(DecodeError::at(kind, key)),
        },
        None => Ok(None),
    }
}

/// Reads the number of 8 bits under the member `key`; none where the member is absent or
/// null.
pub fn read_optional_u8(members: &Vec<(String, Json)>, key: &'static str) -> (r: Result<
    Option<u8>,
    DecodeError,
>)
    ensures
        r == optional_u8(members_of(members@), key),
{
    match find_optional(members, key) {
        Some(value) => match read_u8(value) {
            Ok(read) => Ok(Some(read)),
            Err(kind) => Err(DecodeError { kind, field: key }),
        },
        None => Ok(None),
    }
}

/// The number of 16 bits under the member `key`; none where the member is absent or null.
pub open spec fn optional_u16(members: Members, key: &'static str) -> Result<
    Option<u16>,
    DecodeError,
> {
    match optional(members, key) {
        Some(value) => match u16_of(value) {
            Ok(read) => Ok(Some(read)),
            Err(kind) => Err(DecodeError::at(kind, key)),
        },
        None => Ok(None),
    }
}

/// Reads the number of 16 bits under the member `key`; none where the member is absent or
/// null.
pub fn read_optional_u16(members: &Vec<(String, Json)>, key: &'static str) -> (r: Result<
    Option<u16>,
    DecodeError,
>)
    ensures
        r == optional_u16(members_of(members@), key),
{
    match find_optional(members, key) {
        Some(value) => match read_u16(value) {
            Ok(read) => Ok(Some(read)),
            Err(kind) => Err(DecodeError { kind, field: key }),
        },
        None => Ok(None),
    }
}

/// The boolean under the member `key`; none where the member is absent or null.
pub open spec fn optional_bool(members: Members, key: &'static str) -> Result<
    Option<bool>,
    DecodeError,
> {
    match optional(members, key) {
        Some(value) => match bool_of(value) {
            Ok(read) => Ok(Some(read)),
            Err(kind) => Err(DecodeError::at(kind, key)),
        },
        None => Ok(None),
    }
}

/// Reads the boolean under the member `key`; none where the member is absent or
/// null.
pub fn read_optional_bool(members: &Vec<(String, Json)>, key: &'static str) -> (r: Result<
    Option<bool>,
    DecodeError,
>)
    ensures
        r == optional_bool(members_of(members@), key),
{
    match find_optional(members, key) {
        Some(value) => match read_bool(value) {
            Ok(read) => Ok(Some(read)),
            Err(kind) => Err(DecodeError { kind, field: key }),
        },
        None => Ok(None),
    }
}

/// The identifier under the member `key`; none where the member is absent or null.
pub open spec fn optional_pubkey(members: Members, key: &'static str) -> Result<
    Option<Pubkey>,
    DecodeError,
> {
    match optional(members, key) {
        Some(value) => match pubkey_of(value) {
            Ok(read) => Ok(Some(read)),
            Err(kind) => Err(DecodeError::at(kind, key)),
        },
        None => Ok(None),
    }
}

/// Reads the identifier under the member `key`; none where the member is absent or
/// null.
pub fn read_optional_pubkey(members: &Vec<(String, Json)>, key: &'static str) -> (r: Result<
    Option<Pubkey>,
    DecodeError,
>)
    ensures
        r == optional_pubkey(members_of(members@), key),
{
    match find_optional(members, key) {
        Some(value) => match read_pubkey(value) {
            Ok(read) => Ok(Some(read)),
            Err(kind) => Err(DecodeError { kind, field: key }),
        },
        None => Ok(None),
    }
}

/// The boolean under the member `key`, or `default` where the member is absent.
pub open spec fn bool_or(members: Members, key: &'static str, default: bool) -> Result<
    bool,
    DecodeError,
> {
    match member(members, key@) {
        Some(value) => named(bool_of(value), key),
        None => Ok(default),
    }
}

/// Reads the boolean under the member `key`, or gives `default` where the member
/// is absent.
pub fn read_bool_or(members: &Vec<(String, Json)>, key: &'static str, default: bool) -> (r: Result<
    bool,
    DecodeError,
>)
    ensures
        r == bool_or(members_of(members@), key, default),
{
    match find_member(members, key) {
        Some(value) => name_error(read_bool(value), key),
        None => Ok(default),
    }
}

/// The number of 64 bits under the member `key`, or `default` where the member is absent.
pub open spec fn u64_or(members: Members, key: &'static str, default: u64) -> Result<
    u64,
    DecodeError,
> {
    match member(members, key@) {
        Some(value) => named(u64_of(value), key),
        None => Ok(default),
    }
}

/// Reads the number of 64 bits under the member `key`, or gives `default` where the member
/// is absent.
pub fn read_u64_or(members: &Vec<(String, Json)>, key: &'static str, default: u64) -> (r: Result<
    u64,
    DecodeError,
>)
    ensures
        r == u64_or(members_of(members@), key, default),
{
    match find_member(members, key) {
        Some(value) => name_error(read_u64(value), key),
        None => Ok(default),
    }
}

/// The number under the member `key`, or `default` where the member is absent.
pub open spec fn number_or(members: Members, key: &'static str, default: Number) -> Result<
    Number,
    DecodeError,
> {
    match member(members, key@) {
        Some(value) => named(number_of(value), key),
        None => Ok(default),
    }
}

/// Reads the number under the member `key`, or gives `default` where the member
/// is absent.
pub fn read_number_or(members: &Vec<(String, Json)>, key: &'static str,
    default: Number) -> (r: Result<
    Number,
    DecodeError,
>)
    ensures
        r == number_or(members_of(members@), key, default),
{
    match find_member(members, key) {
        Some(value) => name_error(read_number(value), key),
        None => Ok(default),
    }
}

/// The text under the member `key`, which has to be present.
pub open spec fn required_text(members: Members, key: &'static str) -> Result<
    Seq<char>,
    DecodeError,
> {
    match required(members, key) {
        Ok(value) => named(text_of(value), key),
        Err(e) => Err(e),
    }
}

/// Reads the text under the member `key`, which has to be present.
pub fn read_required_text(members: &Vec<(String, Json)>, key: &'static str) -> (r: Result<
    String,
    DecodeError,
>)
    ensures
        decoded(r, required_text(members_of(members@), key)),
{
    match find_required(members, key) {
        Ok(value) => match read_text(value) {
            Ok(text) => Ok(text),
            Err(kind) => Err(DecodeError { kind, field: key }),
        },
        Err(e) => Err(e),
    }
}

/// What is written for a number of 8 bits that may be absent: null where
/// it is.
pub open spec fn optional_wire_u8(n: Option<u8>) -> JsonView {
    match n {
        Some(n) => unsigned_wire(n as u64),
        None => JsonView::Null,
    }
}

/// What is written for a number of 16 bits that may be absent.
pub open spec fn optional_wire_u16(n: Option<u16>) -> JsonView {
    match n {
        Some(n) => unsigned_wire(n as u64),
        None => JsonView::Null,
    }
}

/// What is written for a number of 32 bits that may be absent.
pub open spec fn optional_wire_u32(n: Option<u32>) -> JsonView {
    match n {
        Some(n) => unsigned_wire(n as u64),
        None => JsonView::Null,
    }
}

/// What is written for a count that may be absent.
pub open spec fn optional_wire_usize(n: Option<usize>) -> JsonView {
    match n {
        Some(n) => unsigned_wire(n as u64),
        None => JsonView::Null,
    }
}

/// What is written for a boolean that may be absent.
pub open spec fn optional_wire_bool(b: Option<bool>) -> JsonView {
    match b {
        Some(b) => JsonView::Bool(b),
        None => JsonView::Null,
    }
}

/// What is written for an identifier that may be absent.
pub open spec fn optional_wire_pubkey(key: Option<Pubkey>) -> JsonView {
    match key {
        Some(key) => pubkey_wire(key),
        None => JsonView::Null,
    }
}

/// What is written for a text that may be absent.
pub open spec fn optional_wire_text(text: Option<String>) -> JsonView {
    match text {
        Some(text) => JsonView::Str(text@),
        None => JsonView::Null,
    }
}

/// Writes a number of 8 bits that may be absent.
pub fn write_optional_u8(n: Option<u8>) -> (j: Json)
    ensures
        j@ == optional_wire_u8(n),
{
    match n {
        Some(n) => Json::Number(Number::Unsigned(n as u64)),
        None => Json::Null,
    }
}

/// Writes a number of 16 bits that may be absent.
pub fn write_optional_u16(n: Option<u16>) -> (j: Json)
    ensures
        j@ == optional_wire_u16(n),
{
    match n {
        Some(n) => Json::Number(Number::Unsigned(n as u64)),
        None => Json::Null,
    }
}

/// Writes a number of 32 bits that may be absent.
pub fn write_optional_u32(n: Option<u32>) -> (j: Json)
    ensures
        j@ == optional_wire_u32(n),
{
    match n {
        Some(n) => Json::Number(Number::Unsigned(n as u64)),
        None => Json::Null,
    }
}

/// Writes a count that may be absent.
pub fn write_optional_usize(n: Option<usize>) -> (j: Json)
    ensures
        j@ == optional_wire_usize(n),
{
    match n {
        Some(n) => Json::Number(Number::Unsigned(n as u64)),
        None => Json::Null,
    }
}

/// Writes a boolean that may be absent.
pub fn write_optional_bool(b: Option<bool>) -> (j: Json)
    ensures
        j@ == optional_wire_bool(b),
{
    match b {
        Some(b) => Json::Bool(b),
        None => Json::Null,
    }
}

/// Writes an identifier that may be absent.
pub fn write_optional_pubkey(key: &Option<Pubkey>) -> (j: Json)
    ensures
        j@ == optional_wire_pubkey(*key),
{
    match key {
        Some(key) => write_pubkey(key),
        None => Json::Null,
    }
}

/// Writes a text that may be absent.
pub fn write_optional_text(text: &Option<String>) -> (j: Json)
    ensures
        j@ == optional_wire_text(*text),
{
    match text {
        Some(text) => write_text(text),
        None => Json::Null,
    }
}

/// Whether an identifier that may be absent is read back from its own text.
pub open spec fn optional_key_round_trips(key: Option<Pubkey>) -> bool {
    key matches Some(key) ==> Pubkey::of_text(key.text()) == Some(key)
}

/// Checks that an identifier that may be absent is read back from its own
/// text.
pub fn check_optional_key(key: &Option<Pubkey>) -> (ok: bool)
    ensures
        ok == optional_key_round_trips(*key),
{
    match key {
        Some(key) => key.round_trips(),
        None => true,
    }
}

} // verus!
