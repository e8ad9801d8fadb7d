//! Decoding of the protocol's instruction payloads into typed events.
//!
//! A payload starts with an 8-byte discriminator. The current encoding uses
//! two exact discriminators (create and buy); an older encoding is recognised
//! by its first byte alone. Text fields are a 4-byte little-endian length
//! followed by that many UTF-8 bytes; integers are little-endian.
use vstd::prelude::*;
use vstd::bytes::{spec_u32_from_le_bytes, spec_u64_from_le_bytes, u32_from_le_bytes, u64_from_le_bytes};
use vstd::slice::slice_subrange;
use crate::address::{Address, zero_address};

verus! {

/// First byte of the older create encoding.
pub const LEGACY_CREATE_OPCODE: u8 = 24;

/// First byte of the older buy encoding.
pub const LEGACY_BUY_OPCODE: u8 = 102;

/// Discriminator of the create instruction.
pub open spec fn create_discriminator() -> Seq<u8> {
    seq![0x18u8, 0x1eu8, 0xc8u8, 0x28u8, 0x05u8, 0x1cu8, 0x07u8, 0x77u8]
}

/// Discriminator of the buy instruction.
pub open spec fn buy_discriminator() -> Seq<u8> {
    seq![0x66u8, 0x06u8, 0x3du8, 0x12u8, 0x01u8, 0xdau8, 0xebu8, 0xeau8]
}

/// The field that a decode failure is about.
#[derive(Clone, Copy, Debug, PartialEq, Eq, Structural)]
pub enum Field {
    NameLength,
    Name,
    SymbolLength,
    Symbol,
    UriLength,
    Uri,
    User,
    BuyArgs,
}

/// Why a payload could not be decoded.
#[derive(Clone, Copy, Debug, PartialEq, Eq, Structural)]
pub enum DecodeError {
    /// Fewer than 8 bytes: no discriminator.
    TooShort,
    /// The payload ends before the named field is complete.
    Missing(Field),
    /// The named text field is not valid UTF-8.
    InvalidText(Field),
    /// Neither discriminator nor legacy opcode matches.
    UnknownInstruction,
}

/// A token launch.
#[derive(Clone, Debug, PartialEq, Eq)]
pub struct CreateEventInstruction {
    pub name: String,
    pub symbol: String,
    pub uri: String,
    pub user: Address,
}

/// A purchase. `max_sol_cost` is taken downstream as the SOL actually spent.
#[derive(Clone, Copy, Debug, PartialEq, Eq, Structural)]
pub struct BuyInstruction {
    pub amount: u64,
    pub max_sol_cost: u64,
}

/// A decoded instruction.
#[derive(Clone, Debug, PartialEq, Eq)]
pub enum DecodedInstruction {
    Create(CreateEventInstruction),
    Buy(BuyInstruction),
}

/// The mathematical content of a create event.
pub struct CreateView {
    pub name: Seq<char>,
    pub symbol: Seq<char>,
    pub uri: Seq<char>,
    pub user: Seq<u8>,
}

/// The mathematical content of a decoded instruction.
pub enum EventView {
    Create(CreateView),
    Buy(BuyInstruction),
}

impl View for CreateEventInstruction {
    type V = CreateView;

    open spec fn view(&self) -> CreateView {
        CreateView { name: self.name@, symbol: self.symbol@, uri: self.uri@, user: self.user@ }
    }
}

impl View for DecodedInstruction {
    type V = EventView;

    open spec fn view(&self) -> EventView {
        match self {
            DecodedInstruction::Create(c) => EventView::Create(c@),
            DecodedInstruction::Buy(b) => EventView::Buy(*b),
        }
    }
}

/// The view of a decode result.
pub open spec fn result_view(r: Result<DecodedInstruction, DecodeError>) -> Result<EventView, DecodeError> {
    match r {
        Ok(ev) => Ok(ev@),
        Err(e) => Err(e),
    }
}

/// What `String::from_utf8` makes of a byte string: its text, or `None`
/// where the bytes are not valid UTF-8.
pub uninterp spec fn utf8_text(b: Seq<u8>) -> Option<Seq<char>>;

/// The u32 stored little-endian at `d[at..at + 4]`.
pub open spec fn le_u32_at(d: Seq<u8>, at: int) -> int {
    spec_u32_from_le_bytes(d.subrange(at, at + 4)) as int
}

/// The u64 stored little-endian at `d[at..at + 8]`.
pub open spec fn le_u64_at(d: Seq<u8>, at: int) -> u64 {
    spec_u64_from_le_bytes(d.subrange(at, at + 8))
}

/// A length-prefixed text field at `at`: its text and the position after it.
pub open spec fn text_field(d: Seq<u8>, at: int, len_field: Field, body_field: Field) -> Result<
    (Seq<char>, int),
    DecodeError,
> {
    if at + 4 > d.len() {
        Err(DecodeError::Missing(len_field))
    } else {
        let n = le_u32_at(d, at);
        if at + 4 + n > d.len() {
            Err(DecodeError::Missing(body_field))
        } else {
            match utf8_text(d.subrange(at + 4, at + 4 + n)) {
                Some(t) => Ok((t, at + 4 + n)),
                None => Err(DecodeError::InvalidText(body_field)),
            }
        }
    }
}

/// Name, symbol and URI read in turn from `at`, and the position after them.
pub open spec fn three_texts(d: Seq<u8>, at: int) -> Result<
    (Seq<char>, Seq<char>, Seq<char>, int),
    DecodeError,
> {
    match text_field(d, at, Field::NameLength, Field::Name) {
        Err(e) => Err(e),
        Ok((name, a1)) => match text_field(d, a1, Field::SymbolLength, Field::Symbol) {
            Err(e) => Err(e),
            Ok((symbol, a2)) => match text_field(d, a2, Field::UriLength, Field::Uri) {
                Err(e) => Err(e),
                Ok((uri, a3)) => Ok((name, symbol, uri, a3)),
            },
        },
    }
}

/// The structured record of three strings: it must span all of `d`.
pub open spec fn structured_texts(d: Seq<u8>) -> Option<(Seq<char>, Seq<char>, Seq<char>)> {
    match three_texts(d, 0) {
        Ok((name, symbol, uri, end)) => if end == d.len() {
            Some((name, symbol, uri))
        } else {
            None
        },
        Err(_) => None,
    }
}

/// The cursor decode of a create payload; the creator follows the texts
/// when `with_user` holds, and is the zero identifier otherwise.
pub open spec fn cursor_create(d: Seq<u8>, with_user: bool) -> Result<CreateView, DecodeError> {
    match three_texts(d, 8) {
        Err(e) => Err(e),
        Ok((name, symbol, uri, end)) => if !with_user {
            Ok(CreateView { name, symbol, uri, user: zero_address() })
        } else if end + 32 > d.len() {
            Err(DecodeError::Missing(Field::User))
        } else {
            Ok(CreateView { name, symbol, uri, user: d.subrange(end, end + 32) })
        },
    }
}

/// The cursor decode of a buy payload: two u64 after the discriminator.
pub open spec fn cursor_buy(d: Seq<u8>) -> Result<BuyInstruction, DecodeError> {
    if d.len() < 24 {
        Err(DecodeError::Missing(Field::BuyArgs))
    } else {
        Ok(BuyInstruction { amount: le_u64_at(d, 8), max_sol_cost: le_u64_at(d, 16) })
    }
}

pub open spec fn create_result(r: Result<CreateView, DecodeError>) -> Result<EventView, DecodeError> {
    match r {
        Ok(c) => Ok(EventView::Create(c)),
        Err(e) => Err(e),
    }
}

pub open spec fn buy_result(r: Result<BuyInstruction, DecodeError>) -> Result<EventView, DecodeError> {
    match r {
        Ok(b) => Ok(EventView::Buy(b)),
        Err(e) => Err(e),
    }
}

/// What a payload decodes to. A structured create record spans the rest of
/// the payload, so no creator can follow it: the creator is then zero.
pub open spec fn decode_spec(d: Seq<u8>) -> Result<EventView, DecodeError> {
    if d.len() < 8 {
        Err(DecodeError::TooShort)
    } else if d.subrange(0, 8) == create_discriminator() {
        match structured_texts(d.subrange(8, d.len() as int)) {
            Some((name, symbol, uri)) => Ok(
                EventView::Create(CreateView { name, symbol, uri, user: zero_address() }),
            ),
            None => create_result(cursor_create(d, true)),
        }
    } else if d.subrange(0, 8) == buy_discriminator() {
        buy_result(cursor_buy(d))
    } else if d[0] == LEGACY_CREATE_OPCODE {
        create_result(cursor_create(d, false))
    } else if d[0] == LEGACY_BUY_OPCODE {
        buy_result(cursor_buy(d))
    } else {
        Err(DecodeError::UnknownInstruction)
    }
}

/// Relies on `String::from_utf8`: the text of valid UTF-8 bytes, an error
/// for any other byte string.
#[verifier::external_body]
fn text_from_utf8(b: &[u8]) -> (r: Option<String>)
    ensures
        match r {
            Some(s) => utf8_text(b@) == Some(s@),
            None => utf8_text(b@) == None::<Seq<char>>,
        },
{
    String::from_utf8(b.to_vec()).ok()
}

/// Relies on `borsh::from_slice::<(String, String, String)>`: each string is
/// a u32 little-endian byte count and that many bytes, decoded with
/// `String::from_utf8`; the call fails unless every byte is consumed.
#[verifier::external_body]
fn borsh_three_strings(b: &[u8]) -> (r: Option<(String, String, String)>)
    ensures
        match r {
            Some(t) => structured_texts(b@) == Some((t.0@, t.1@, t.2@)),
            None => structured_texts(b@) == None::<(Seq<char>, Seq<char>, Seq<char>)>,
        },
{
    borsh::from_slice::<(String, String, String)>(b).ok()
}

/// Relies on `borsh::from_slice::<(u64, u64)>`: two u64 read little-endian
/// from exactly 16 bytes.
#[verifier::external_body]
fn borsh_two_u64(b: &[u8]) -> (r: Option<(u64, u64)>)
    ensures
        match r {
            Some(t) => b@.len() == 16 && t.0 == le_u64_at(b@, 0) && t.1 == le_u64_at(b@, 8),
            None => b@.len() != 16,
        },
{
    borsh::from_slice::<(u64, u64)>(b).ok()
}

/// Reads one length-prefixed text field at `at`, checking bounds first.
fn read_text(data: &[u8], at: usize, len_field: Field, body_field: Field) -> (r: Result<
    (String, usize),
    DecodeError,
>)
    requires
        at <= data@.len(),
    ensures
        match r {
            Ok(p) => text_field(data@, at as int, len_field, body_field) == Ok::<
                (Seq<char>, int),
                DecodeError,
            >((p.0@, p.1 as int)),
            Err(e) => text_field(data@, at as int, len_field, body_field) == Err::<
                (Seq<char>, int),
                DecodeError,
            >(e),
        },
{
    let n: usize = data.len();
    if n - at < 4 {
        return Err(DecodeError::Missing(len_field));
    }
    let len: usize = u32_from_le_bytes(slice_subrange(data, at, at + 4)) as usize;
    if n - (at + 4) < len {
        return Err(DecodeError::Missing(body_field));
    }
    let end: usize = at + 4 + len;
    match text_from_utf8(slice_subrange(data, at + 4, end)) {
        Some(t) => Ok((t, end)),
        None => Err(DecodeError::InvalidText(body_field)),
    }
}

/// Reads name, symbol and URI in turn from `at`.
fn read_three_texts(data: &[u8], at: usize) -> (r: Result<(String, String, String, usize), DecodeError>)
    requires
        at <= data@.len(),
    ensures
        match r {
            Ok(t) => three_texts(data@, at as int) == Ok::<
                (Seq<char>, Seq<char>, Seq<char>, int),
                DecodeError,
            >((t.0@, t.1@, t.2@, t.3 as int)),
            Err(e) => three_texts(data@, at as int) == Err::<
                (Seq<char>, Seq<char>, Seq<char>, int),
                DecodeError,
            >(e),
        },
{
    let (name, a1) = match read_text(data, at, Field::NameLength, Field::Name) {
        Ok(p) => p,
        Err(e) => return Err(e),
    };
    let (symbol, a2) = match read_text(data, a1, Field::SymbolLength, Field::Symbol) {
        Ok(p) => p,
        Err(e) => return Err(e),
    };
    let (uri, a3) = match read_text(data, a2, Field::UriLength, Field::Uri) {
        Ok(p) => p,
        Err(e) => return Err(e),
    };
    Ok((name, symbol, uri, a3))
}

/// The bounds-checked cursor decode of a create payload.
fn decode_create_cursor(data: &[u8], with_user: bool) -> (r: Result<CreateEventInstruction, DecodeError>)
    requires
        data@.len() >= 8,
    ensures
        match r {
            Ok(c) => cursor_create(data@, with_user) == Ok::<CreateView, DecodeError>(c@),
            Err(e) => cursor_create(data@, with_user) == Err::<CreateView, DecodeError>(e),
        },
{
    let (name, symbol, uri, end) = match read_three_texts(data, 8) {
        Ok(t) => t,
        Err(e) => return Err(e),
    };
    if !with_user {
        return Ok(CreateEventInstruction { name, symbol, uri, user: Address::zero() });
    }
    if data.len() - end < 32 {
        return Err(DecodeError::Missing(Field::User));
    }
    let user = Address::read_from(data, end);
    Ok(CreateEventInstruction { name, symbol, uri, user })
}

/// The bounds-checked cursor decode of a buy payload.
fn decode_buy_cursor(data: &[u8]) -> (r: Result<BuyInstruction, DecodeError>)
    requires
        data@.len() >= 8,
    ensures
        match r {
            Ok(b) => cursor_buy(data@) == Ok::<BuyInstruction, DecodeError>(b),
            Err(e) => cursor_buy(data@) == Err::<BuyInstruction, DecodeError>(e),
        },
{
    if data.len() < 24 {
        return Err(DecodeError::Missing(Field::BuyArgs));
    }
    let amount = u64_from_le_bytes(slice_subrange(data, 8, 16));
    let max_sol_cost = u64_from_le_bytes(slice_subrange(data, 16, 24));
    Ok(BuyInstruction { amount, max_sol_cost })
}

/// Whether the first 8 bytes equal `disc`.
fn has_discriminator(data: &[u8], disc: &[u8; 8]) -> (r: bool)
    requires
        data@.len() >= 8,
    ensures
        r == (data@.subrange(0, 8) == disc@),
{
    let mut i: usize = 0;
    while i < 8
        invariant
            i <= 8,
            data@.len() >= 8,
            disc@.len() == 8,
            forall|j: int| 0 <= j < i ==> data@[j] == disc@[j],
        decreases 8 - i,
    {
        if data[i] != disc[i] {
            assert(data@.subrange(0, 8)[i as int] != disc@[i as int]);
            return false;
        }
        i = i + 1;
    }
    assert(data@.subrange(0, 8) =~= disc@);
    true
}

/// Decodes an instruction payload: the exact discriminators first, then the
/// legacy first-byte opcodes. Never panics; every failure is an error value.
pub fn parse_instruction_data(data: &[u8]) -> (r: Result<DecodedInstruction, DecodeError>)
    ensures
        result_view(r) == decode_spec(data@),
{
    if data.len() < 8 {
        return Err(DecodeError::TooShort);
    }
    let create_disc: [u8; 8] = [0x18, 0x1e, 0xc8, 0x28, 0x05, 0x1c, 0x07, 0x77];
    let buy_disc: [u8; 8] = [0x66, 0x06, 0x3d, 0x12, 0x01, 0xda, 0xeb, 0xea];
    assert(create_disc@ =~= create_discriminator());
    assert(buy_disc@ =~= buy_discriminator());
    if has_discriminator(data, &create_disc) {
        let rest = slice_subrange(data, 8, data.len());
        if let Some(t) = borsh_three_strings(rest) {
            let (name, symbol, uri) = t;
            return Ok(
                DecodedInstruction::Create(
                    CreateEventInstruction { name, symbol, uri, user: Address::zero() },
                ),
            );
        }
        match decode_create_cursor(data, true) {
            Ok(c) => Ok(DecodedInstruction::Create(c)),
            Err(e) => Err(e),
        }
    } else if has_discriminator(data, &buy_disc) {
        let rest = slice_subrange(data, 8, data.len());
        if let Some(t) = borsh_two_u64(rest) {
            proof {
                assert(rest@.subrange(0, 8) =~= data@.subrange(8, 16));
                assert(rest@.subrange(8, 16) =~= data@.subrange(16, 24));
            }
            return Ok(DecodedInstruction::Buy(BuyInstruction { amount: t.0, max_sol_cost: t.1 }));
        }
        match decode_buy_cursor(data) {
            Ok(b) => Ok(DecodedInstruction::Buy(b)),
            Err(e) => Err(e),
        }
    } else if data[0] == LEGACY_CREATE_OPCODE {
        match decode_create_cursor(data, false) {
            Ok(c) => Ok(DecodedInstruction::Create(c)),
            Err(e) => Err(e),
        }
    } else if data[0] == LEGACY_BUY_OPCODE {
        match decode_buy_cursor(data) {
            Ok(b) => Ok(DecodedInstruction::Buy(b)),
            Err(e) => Err(e),
        }
    } else {
        Err(DecodeError::UnknownInstruction)
    }
}

} // verus!
