//! Steam ID and all it needs and may represent.
//!
//! The packed 64-bit identifier decomposes, most significant bits first,
//! into `universe` (8 bits), `account type` (4 bits), `instance` (20 bits),
//! `account` (31 bits) and the authentication-server flag (1 bit).

use vstd::prelude::*;

use vstd::string::StrSliceExecFns;
use vstd::string::StringExecFns;

use crate::bit_iterator::BitIterator;
use crate::bit_iterator::bits_spec;
use crate::decimal::all_digit_chars;
use crate::decimal::append_dec;
use crate::decimal::dec_digits;
use crate::decimal::digit_char;
use crate::decimal::digit_str;
use crate::decimal::digit_val;
use crate::decimal::is_dec_u64_text;
use crate::decimal::is_digit_char;
use crate::decimal::lemma_dec_digits_wf;
use crate::decimal::lemma_digit_roundtrip;
use crate::decimal::lemma_parse_of_dec_digits;
use crate::decimal::parse_dec_range;
use crate::decimal::parse_digits;
use crate::decimal::parse_u64_text;
use crate::decimal::u64_to_dec_string;
use crate::error::Error;
use crate::error::IdField;

verus! {

/// Steam online state.
#[derive(Debug, Copy, Clone, PartialEq, Eq, Structural)]
pub enum OnlineState {
    /// When a user is offline.
    Offline,
    /// When a user is online.
    Online,
    /// When a user is playing or in game.
    InGame,
    /// Any other status.
    Other,
}

/// The display name of an online state.
pub open spec fn online_state_name(s: OnlineState) -> Seq<char> {
    match s {
        OnlineState::Offline => "Offline"@,
        OnlineState::Online => "Online"@,
        OnlineState::InGame => "In game"@,
        OnlineState::Other => "Other"@,
    }
}

impl OnlineState {
    /// The display name of this online state.
    pub fn display_name(&self) -> (r: &'static str)
        ensures
            r@ == online_state_name(*self),
    {
        match *self {
            OnlineState::Offline => "Offline",
            OnlineState::Online => "Online",
            OnlineState::InGame => "In game",
            OnlineState::Other => "Other",
        }
    }
}

/// Steam Id Universe.
#[derive(Debug, Copy, Clone, PartialEq, Eq, Structural)]
pub enum Universe {
    /// An individual account or unspecified.
    IndividualOrUnspecified,
    /// A public account.
    Public,
    /// A beta account.
    Beta,
    /// An internal account.
    Internal,
    /// A developer account.
    Developer,
    /// A release-candidate account.
    Rc,
}

/// The numeric code of a universe on the wire.
pub open spec fn universe_code(u: Universe) -> u64 {
    match u {
        Universe::IndividualOrUnspecified => 0,
        Universe::Public => 1,
        Universe::Beta => 2,
        Universe::Internal => 3,
        Universe::Developer => 4,
        Universe::Rc => 5,
    }
}

/// The universe a numeric code below six names.
pub open spec fn universe_of_code(c: u64) -> Universe
    recommends
        c <= 5,
{
    if c == 0 {
        Universe::IndividualOrUnspecified
    } else if c == 1 {
        Universe::Public
    } else if c == 2 {
        Universe::Beta
    } else if c == 3 {
        Universe::Internal
    } else if c == 4 {
        Universe::Developer
    } else {
        Universe::Rc
    }
}

/// The display name of a universe.
pub open spec fn universe_name(u: Universe) -> Seq<char> {
    match u {
        Universe::IndividualOrUnspecified => "Individual or unspecified"@,
        Universe::Public => "Public"@,
        Universe::Beta => "Beta"@,
        Universe::Internal => "Internal"@,
        Universe::Developer => "Developer"@,
        Universe::Rc => "RC"@,
    }
}

impl Universe {
    /// The display name of this universe.
    pub fn display_name(&self) -> (r: &'static str)
        ensures
            r@ == universe_name(*self),
    {
        match *self {
            Universe::IndividualOrUnspecified => "Individual or unspecified",
            Universe::Public => "Public",
            Universe::Beta => "Beta",
            Universe::Internal => "Internal",
            Universe::Developer => "Developer",
            Universe::Rc => "RC",
        }
    }

    /// The numeric code of this universe on the wire.
    pub fn code(self) -> (r: u64)
        ensures
            r == universe_code(self),
    {
        match self {
            Universe::IndividualOrUnspecified => 0,
            Universe::Public => 1,
            Universe::Beta => 2,
            Universe::Internal => 3,
            Universe::Developer => 4,
            Universe::Rc => 5,
        }
    }

    /// Reads a numeric universe code; codes above five name no universe.
    pub fn try_from(value: u64) -> (r: Result<Universe, Error>)
        ensures
            value <= 5 ==> r == Ok::<Universe, Error>(universe_of_code(value)),
            value > 5 ==> r == Err::<Universe, Error>(Error::InvalidUniverse(value)),
    {
        match value {
            0 => Ok(Universe::IndividualOrUnspecified),
            1 => Ok(Universe::Public),
            2 => Ok(Universe::Beta),
            3 => Ok(Universe::Internal),
            4 => Ok(Universe::Developer),
            5 => Ok(Universe::Rc),
            _ => Err(Error::InvalidUniverse(value)),
        }
    }
}

/// Steam Id Account type.
#[derive(Debug, Copy, Clone, PartialEq, Eq, Structural)]
pub enum AccountType {
    /// The account is of an individual.
    Individual,
    /// The account is of a multiseat type.
    Multiseat,
    /// The account is of a game server registered in steam.
    GameServer,
    /// The account is of a game server unregistered in steam.
    AnonymousGameServer,
    /// The account is pending approval.
    Pending,
    /// The account is of a content server.
    ContentServer,
    /// The account is of a clan.
    Clan,
    /// The chat account.
    Chat,
    /// The P2P seeder account.
    PeerToPeerSuperSeeder,
    /// The anonymous user account.
    AnonymousUser,
    /// An invalid account type.
    Invalid,
}

/// The numeric code of an account type on the wire.
pub open spec fn account_type_code(t: AccountType) -> u64 {
    match t {
        AccountType::Invalid => 0,
        AccountType::Individual => 1,
        AccountType::Multiseat => 2,
        AccountType::GameServer => 3,
        AccountType::AnonymousGameServer => 4,
        AccountType::Pending => 5,
        AccountType::ContentServer => 6,
        AccountType::Clan => 7,
        AccountType::Chat => 8,
        AccountType::PeerToPeerSuperSeeder => 9,
        AccountType::AnonymousUser => 10,
    }
}

/// The account type a numeric code up to ten names.
pub open spec fn account_type_of_code(c: u64) -> AccountType
    recommends
        c <= 10,
{
    if c == 0 {
        AccountType::Invalid
    } else if c == 1 {
        AccountType::Individual
    } else if c == 2 {
        AccountType::Multiseat
    } else if c == 3 {
        AccountType::GameServer
    } else if c == 4 {
        AccountType::AnonymousGameServer
    } else if c == 5 {
        AccountType::Pending
    } else if c == 6 {
        AccountType::ContentServer
    } else if c == 7 {
        AccountType::Clan
    } else if c == 8 {
        AccountType::Chat
    } else if c == 9 {
        AccountType::PeerToPeerSuperSeeder
    } else {
        AccountType::AnonymousUser
    }
}

/// The account type named by a one-character code of the tiny text format.
/// Several characters name the chat type; unknown characters name none.
pub open spec fn account_type_of_char(c: char) -> Option<AccountType> {
    match c {
        'I' => Some(AccountType::Invalid),
        'U' => Some(AccountType::Individual),
        'M' => Some(AccountType::Multiseat),
        'G' => Some(AccountType::GameServer),
        'A' => Some(AccountType::AnonymousGameServer),
        'P' => Some(AccountType::Pending),
        'C' => Some(AccountType::ContentServer),
        'g' => Some(AccountType::Clan),
        'T' => Some(AccountType::Chat),
        'L' => Some(AccountType::Chat),
        'c' => Some(AccountType::Chat),
        'a' => Some(AccountType::AnonymousUser),
        _ => None,
    }
}

/// The display name of an account type.
pub open spec fn account_type_name(t: AccountType) -> Seq<char> {
    match t {
        AccountType::Individual => "Individual"@,
        AccountType::Multiseat => "Multiseat"@,
        AccountType::GameServer => "Game server"@,
        AccountType::AnonymousGameServer => "Anonymous game server"@,
        AccountType::Pending => "Pending"@,
        AccountType::ContentServer => "Content server"@,
        AccountType::Clan => "Clan"@,
        AccountType::Chat => "Chat"@,
        AccountType::PeerToPeerSuperSeeder => "Peer to peer superseeder"@,
        AccountType::AnonymousUser => "Anonymous user"@,
        AccountType::Invalid => "Invalid"@,
    }
}

impl AccountType {
    /// The display name of this account type.
    pub fn display_name(&self) -> (r: &'static str)
        ensures
            r@ == account_type_name(*self),
    {
        match *self {
            AccountType::Individual => "Individual",
            AccountType::Multiseat => "Multiseat",
            AccountType::GameServer => "Game server",
            AccountType::AnonymousGameServer => "Anonymous game server",
            AccountType::Pending => "Pending",
            AccountType::ContentServer => "Content server",
            AccountType::Clan => "Clan",
            AccountType::Chat => "Chat",
            AccountType::PeerToPeerSuperSeeder => "Peer to peer superseeder",
            AccountType::AnonymousUser => "Anonymous user",
            AccountType::Invalid => "Invalid",
        }
    }

    /// The numeric code of this account type on the wire.
    pub fn code(self) -> (r: u64)
        ensures
            r == account_type_code(self),
    {
        match self {
            AccountType::Invalid => 0,
            AccountType::Individual => 1,
            AccountType::Multiseat => 2,
            AccountType::GameServer => 3,
            AccountType::AnonymousGameServer => 4,
            AccountType::Pending => 5,
            AccountType::ContentServer => 6,
            AccountType::Clan => 7,
            AccountType::Chat => 8,
            AccountType::PeerToPeerSuperSeeder => 9,
            AccountType::AnonymousUser => 10,
        }
    }

    /// Reads a numeric account-type code; codes above ten name no type.
    pub fn try_from(value: u64) -> (r: Result<AccountType, Error>)
        ensures
            value <= 10 ==> r == Ok::<AccountType, Error>(account_type_of_code(value)),
            value > 10 ==> r == Err::<AccountType, Error>(Error::InvalidAccountType(value)),
    {
        match value {
            0 => Ok(AccountType::Invalid),
            1 => Ok(AccountType::Individual),
            2 => Ok(AccountType::Multiseat),
            3 => Ok(AccountType::GameServer),
            4 => Ok(AccountType::AnonymousGameServer),
            5 => Ok(AccountType::Pending),
            6 => Ok(AccountType::ContentServer),
            7 => Ok(AccountType::Clan),
            8 => Ok(AccountType::Chat),
            9 => Ok(AccountType::PeerToPeerSuperSeeder),
            10 => Ok(AccountType::AnonymousUser),
            _ => Err(Error::InvalidAccountType(value)),
        }
    }

    /// Reads account-type text: a single character naming a type. Text of
    /// any other length names none.
    pub fn from_str(s: &str) -> (r: Result<AccountType, Error>)
        ensures
            s@.len() == 1 ==> (match account_type_of_char(s@[0]) {
                Some(t) => r == Ok::<AccountType, Error>(t),
                None => r == Err::<AccountType, Error>(Error::InvalidAccountTypeChar(s@[0])),
            }),
            s@.len() != 1 ==> (r matches Err(e) && e matches Error::InvalidAccountTypeText(t)
                && t@ == s@),
    {
        if s.unicode_len() == 1 {
            AccountType::try_from_char(s.get_char(0))
        } else {
            Err(Error::InvalidAccountTypeText(s.to_owned()))
        }
    }

    /// Reads a one-character account-type code of the tiny text format.
    pub fn try_from_char(value: char) -> (r: Result<AccountType, Error>)
        ensures
            match account_type_of_char(value) {
                Some(t) => r == Ok::<AccountType, Error>(t),
                None => r == Err::<AccountType, Error>(Error::InvalidAccountTypeChar(value)),
            },
    {
        match value {
            'I' => Ok(AccountType::Invalid),
            'U' => Ok(AccountType::Individual),
            'M' => Ok(AccountType::Multiseat),
            'G' => Ok(AccountType::GameServer),
            'A' => Ok(AccountType::AnonymousGameServer),
            'P' => Ok(AccountType::Pending),
            'C' => Ok(AccountType::ContentServer),
            'g' => Ok(AccountType::Clan),
            'T' => Ok(AccountType::Chat),
            'L' => Ok(AccountType::Chat),
            'c' => Ok(AccountType::Chat),
            'a' => Ok(AccountType::AnonymousUser),
            _ => Err(Error::InvalidAccountTypeChar(value)),
        }
    }
}

/// Steam Id information: the decoded view of a packed identifier.
#[derive(Debug, Copy, Clone, PartialEq, Eq, Structural)]
pub struct Info {
    /// The universe this id belongs to.
    pub universe: Universe,
    /// The type of the account.
    pub account_type: AccountType,
    /// Account instance.
    pub instance: u32,
    /// Account number.
    pub account: u32,
    /// The authentication server used by the account, either `1` or `0`.
    pub authentication_server: u8,
}

/// The universe field of a packed identifier: its topmost 8 bits.
pub open spec fn universe_bits(p: u64) -> u64 {
    p >> 56u64
}

/// The account-type field: 4 bits below the universe.
pub open spec fn account_type_bits(p: u64) -> u64 {
    (p >> 52u64) & 0xf
}

/// The instance field: 20 bits below the account type.
pub open spec fn instance_bits(p: u64) -> u64 {
    (p >> 32u64) & 0xfffff
}

/// The account field: 31 bits below the instance.
pub open spec fn account_bits(p: u64) -> u64 {
    (p >> 1u64) & 0x7fff_ffff
}

/// The authentication-server flag: the lowest bit.
pub open spec fn auth_server_bits(p: u64) -> u64 {
    p & 1
}

/// Packs the five fields into one 64-bit identifier, most significant first.
pub open spec fn packed_of(
    universe: u64,
    account_type: u64,
    instance: u64,
    account: u64,
    auth_server: u64,
) -> u64
    recommends
        universe < 0x100,
        account_type < 0x10,
        instance < 0x100000,
        account < 0x8000_0000,
        auth_server < 2,
{
    (universe << 56u64) | (account_type << 52u64) | (instance << 32u64) | (account << 1u64)
        | auth_server
}

/// A packed identifier decodes when its universe and account-type codes are
/// in range; the other three fields can hold any value of their width.
pub open spec fn decodes_ok(p: u64) -> bool {
    universe_bits(p) <= 5 && account_type_bits(p) <= 10
}

/// The decoded view of a packed identifier.
pub open spec fn spec_info(p: u64) -> Info
    recommends
        decodes_ok(p),
{
    Info {
        universe: universe_of_code(universe_bits(p)),
        account_type: account_type_of_code(account_type_bits(p)),
        instance: instance_bits(p) as u32,
        account: account_bits(p) as u32,
        authentication_server: auth_server_bits(p) as u8,
    }
}

/// Every field of a packed identifier fits the width of its slot.
pub proof fn lemma_field_bounds(p: u64)
    by (bit_vector)
    ensures
        universe_bits(p) < 0x100,
        account_type_bits(p) < 0x10,
        instance_bits(p) < 0x100000,
        account_bits(p) < 0x8000_0000,
        auth_server_bits(p) < 2,
{
}

/// Walking a packed identifier left to right with widths 8, 4, 20, 31 and 1
/// yields exactly the five fields of the layout.
proof fn lemma_iter_fields(p: u64)
    by (bit_vector)
    ensures
        bits_spec(p, 64, 8) == universe_bits(p),
        bits_spec(p, 56, 4) == account_type_bits(p),
        bits_spec(p, 52, 20) == instance_bits(p),
        bits_spec(p, 32, 31) == account_bits(p),
        bits_spec(p, 1, 1) == auth_server_bits(p),
{
}

/// Decoding an identifier packed from in-range fields gives the fields back.
pub proof fn lemma_encode_then_decode(
    universe: u64,
    account_type: u64,
    instance: u64,
    account: u64,
    auth_server: u64,
)
    by (bit_vector)
    requires
        universe < 0x100,
        account_type < 0x10,
        instance < 0x100000,
        account < 0x8000_0000,
        auth_server < 2,
    ensures
        universe_bits(packed_of(universe, account_type, instance, account, auth_server))
            == universe,
        account_type_bits(packed_of(universe, account_type, instance, account, auth_server))
            == account_type,
        instance_bits(packed_of(universe, account_type, instance, account, auth_server))
            == instance,
        account_bits(packed_of(universe, account_type, instance, account, auth_server))
            == account,
        auth_server_bits(packed_of(universe, account_type, instance, account, auth_server))
            == auth_server,
{
}

/// Packing the five decoded fields of any identifier reproduces it exactly:
/// the five widths tile all 64 bits.
pub proof fn lemma_decode_then_encode(p: u64)
    by (bit_vector)
    ensures
        packed_of(
            universe_bits(p),
            account_type_bits(p),
            instance_bits(p),
            account_bits(p),
            auth_server_bits(p),
        ) == p,
{
}

/// The arithmetic reading of the bit layout: the five fields weighted by
/// the powers of two of their positions sum to the packed value, so the
/// widths 8, 4, 20, 31 and 1 tile all 64 bits with nothing left over.
pub proof fn lemma_packed_arithmetic(p: u64)
    by (bit_vector)
    ensures
        p == universe_bits(p) * 0x100_0000_0000_0000 + account_type_bits(p) * 0x10_0000_0000_0000
            + instance_bits(p) * 0x1_0000_0000 + account_bits(p) * 2 + auth_server_bits(p),
{
}

/// Steam Id 64.
/// Example: `7656119xxxxxxxxxx`.
#[derive(Debug, Copy, Clone, PartialEq, Eq, Structural)]
pub struct Id64(pub u64);

impl Id64 {
    /// Get a detailed information about the steam account from the steam id.
    ///
    /// Fails when the universe or account-type code of the packed value is
    /// out of range; the three remaining fields always fit their width.
    pub fn info(self) -> (r: Result<Info, Error>)
        ensures
            r matches Ok(i) <==> decodes_ok(self.0),
            r matches Ok(i) ==> i == spec_info(self.0),
            universe_bits(self.0) > 5 ==> r == Err::<Info, Error>(
                Error::InvalidUniverse(universe_bits(self.0)),
            ),
            universe_bits(self.0) <= 5 && account_type_bits(self.0) > 10 ==> r == Err::<
                Info,
                Error,
            >(Error::InvalidAccountType(account_type_bits(self.0))),
    {
        proof {
            lemma_iter_fields(self.0);
            lemma_field_bounds(self.0);
        }
        let mut iter = BitIterator::new(self.0, 8);
        let universe_raw = iter.next().unwrap();
        let universe = match Universe::try_from(universe_raw) {
            Ok(u) => u,
            Err(e) => {
                return Err(e);
            },
        };
        let type_raw = iter.next_bits(4).unwrap();
        let account_type = match AccountType::try_from(type_raw) {
            Ok(t) => t,
            Err(e) => {
                return Err(e);
            },
        };
        let instance = iter.next_bits(20).unwrap() as u32;
        let account = iter.next_bits(31).unwrap() as u32;
        let authentication_server = iter.next_bits(1).unwrap() as u8;
        Ok(Info { universe, account_type, instance, account, authentication_server })
    }

    /// Create a new Id64 with only three parameters passed, all others
    /// constructed from the default, most commonly used values: the
    /// individual account type and instance one.
    pub fn new_simple(universe: Universe, authentication_server: u8, account: u32) -> (r: Result<
        Id64,
        Error,
    >)
        ensures
            r matches Ok(id) <==> (account < 0x8000_0000 && authentication_server <= 1),
            r matches Ok(id) ==> id.0 == packed_of(
                universe_code(universe),
                1,
                1,
                account as u64,
                authentication_server as u64,
            ),
            account >= 0x8000_0000 ==> r == Err::<Id64, Error>(
                Error::FieldOutOfRange(IdField::Account, account as u64),
            ),
            account < 0x8000_0000 && authentication_server > 1 ==> r == Err::<Id64, Error>(
                Error::FieldOutOfRange(
                    IdField::AuthenticationServer,
                    authentication_server as u64,
                ),
            ),
    {
        Id64::new_full(universe, AccountType::Individual, 1, authentication_server, account)
    }

    /// Create a new Id64 with all the values specified explicitly.
    ///
    /// Fails when a field value does not fit the width of its slot in the
    /// packed layout; the universe and account type always fit.
    pub fn new_full(
        universe: Universe,
        account_type: AccountType,
        account_instance: u32,
        authentication_server: u8,
        account: u32,
    ) -> (r: Result<Id64, Error>)
        ensures
            r matches Ok(id) <==> (account_instance < 0x100000 && account < 0x8000_0000
                && authentication_server <= 1),
            r matches Ok(id) ==> id.0 == packed_of(
                universe_code(universe),
                account_type_code(account_type),
                account_instance as u64,
                account as u64,
                authentication_server as u64,
            ),
            account_instance >= 0x100000 ==> r == Err::<Id64, Error>(
                Error::FieldOutOfRange(IdField::Instance, account_instance as u64),
            ),
            account_instance < 0x100000 && account >= 0x8000_0000 ==> r == Err::<Id64, Error>(
                Error::FieldOutOfRange(IdField::Account, account as u64),
            ),
            account_instance < 0x100000 && account < 0x8000_0000 && authentication_server > 1
                ==> r == Err::<Id64, Error>(
                Error::FieldOutOfRange(
                    IdField::AuthenticationServer,
                    authentication_server as u64,
                ),
            ),
    {
        if account_instance >= 0x100000 {
            return Err(Error::FieldOutOfRange(IdField::Instance, account_instance as u64));
        }
        if account >= 0x8000_0000 {
            return Err(Error::FieldOutOfRange(IdField::Account, account as u64));
        }
        if authentication_server > 1 {
            return Err(
                Error::FieldOutOfRange(
                    IdField::AuthenticationServer,
                    authentication_server as u64,
                ),
            );
        }
        let num = (universe.code() << 56u64) | (account_type.code() << 52u64) | ((
        account_instance as u64) << 32u64) | ((account as u64) << 1u64) | (
        authentication_server as u64);
        Ok(Id64(num))
    }
}

/// True of the characters that may open the tiny text format: ASCII letters,
/// digits and the underscore.
pub open spec fn is_word_char(c: char) -> bool {
    is_digit_char(c) || (65 <= c as u32 && c as u32 <= 90) || (97 <= c as u32 && c as u32 <= 122)
        || c == '_'
}

/// The classic text format: `STEAM_` followed by a universe digit, a colon,
/// a server digit, a colon, and one or more account digits.
pub open spec fn is_id32_text(s: Seq<char>) -> bool {
    &&& s.len() >= 11
    &&& s[0] == 'S'
    &&& s[1] == 'T'
    &&& s[2] == 'E'
    &&& s[3] == 'A'
    &&& s[4] == 'M'
    &&& s[5] == '_'
    &&& is_digit_char(s[6])
    &&& s[7] == ':'
    &&& is_digit_char(s[8])
    &&& s[9] == ':'
    &&& all_digit_chars(s.subrange(10, s.len() as int))
}

/// The universe digit of classic text.
pub open spec fn id32_universe_digit(s: Seq<char>) -> nat {
    digit_val(s[6])
}

/// The server digit of classic text.
pub open spec fn id32_server_digit(s: Seq<char>) -> nat {
    digit_val(s[8])
}

/// The account number of classic text.
pub open spec fn id32_account_num(s: Seq<char>) -> nat {
    parse_digits(s.subrange(10, s.len() as int))
}

/// The tiny text format: a one-character account-type code, a colon, a
/// server digit, a colon, and one or more account digits.
pub open spec fn is_id3_text(s: Seq<char>) -> bool {
    &&& s.len() >= 5
    &&& is_word_char(s[0])
    &&& s[1] == ':'
    &&& is_digit_char(s[2])
    &&& s[3] == ':'
    &&& all_digit_chars(s.subrange(4, s.len() as int))
}

/// The account-type character of tiny text.
pub open spec fn id3_code_char(s: Seq<char>) -> char {
    s[0]
}

/// The server digit of tiny text.
pub open spec fn id3_server_digit(s: Seq<char>) -> nat {
    digit_val(s[2])
}

/// The account number of tiny text.
pub open spec fn id3_account_num(s: Seq<char>) -> nat {
    parse_digits(s.subrange(4, s.len() as int))
}

/// Classic text as this crate renders it. The universe digit is always `0`,
/// whatever universe the value came from: observed client behaviour, off the
/// published layout.
pub open spec fn render_id32(server: nat, account: nat) -> Seq<char>
    recommends
        server <= 9,
{
    seq!['S', 'T', 'E', 'A', 'M', '_', '0', ':', digit_char(server), ':'] + dec_digits(account)
}

/// Tiny text as this crate renders it: always the individual account-type
/// code and server digit `1`, which the tiny format fixes.
pub open spec fn render_id3(account: nat) -> Seq<char> {
    seq!['U', ':', '1', ':'] + dec_digits(account)
}

/// What converting classic to tiny text yields: the tiny account number is
/// the classic account doubled plus the server digit.
pub open spec fn spec_id32_to_id3_text(v: Seq<char>) -> Option<Seq<char>> {
    if is_id32_text(v) && 2 * id32_account_num(v) + id32_server_digit(v) <= u64::MAX {
        Some(render_id3(2 * id32_account_num(v) + id32_server_digit(v)))
    } else {
        None
    }
}

/// What converting tiny to classic text yields: the classic account is half
/// the tiny account number, and the server digit its parity.
pub open spec fn spec_id3_to_id32_text(v: Seq<char>) -> Option<Seq<char>> {
    if is_id3_text(v) && account_type_of_char(v[0]) is Some && id3_account_num(v) <= u32::MAX {
        Some(render_id32(id3_account_num(v) % 2, id3_account_num(v) / 2))
    } else {
        None
    }
}

/// What packing classic text yields. A universe digit `0` is coerced to `1`
/// before encoding (`0` is not a legal universe on the wire); account type
/// and instance take their default values, individual and one.
pub open spec fn spec_id32_to_id64(v: Seq<char>) -> Option<u64> {
    if is_id32_text(v) {
        let u0 = id32_universe_digit(v);
        let u = if u0 == 0 {
            1nat
        } else {
            u0
        };
        let srv = id32_server_digit(v);
        let a = id32_account_num(v);
        if u <= 5 && a < 0x8000_0000 && srv <= 1 {
            Some(packed_of(u as u64, 1, 1, a as u64, srv as u64))
        } else {
            None
        }
    } else {
        None
    }
}

/// What rendering a packed identifier as classic text yields.
pub open spec fn spec_id64_to_id32_text(p: u64) -> Option<Seq<char>> {
    if decodes_ok(p) {
        Some(render_id32(auth_server_bits(p) as nat, account_bits(p) as nat))
    } else {
        None
    }
}

/// What packing tiny text yields: tiny converts to classic first, and that
/// classic text always packs.
pub open spec fn spec_id3_to_id64(v: Seq<char>) -> Option<u64> {
    match spec_id3_to_id32_text(v) {
        Some(t) => spec_id32_to_id64(t),
        None => None,
    }
}

/// The error of converting classic to tiny text, for each failing input.
pub open spec fn id32_to_id3_err(v: Seq<char>, e: Error) -> bool {
    if !is_id32_text(v) {
        &&& e matches Error::InvalidSteamId(t)
        &&& t@ == v
    } else if 2 * id32_account_num(v) + id32_server_digit(v) > u64::MAX {
        e == Error::NumericParseFailure
    } else {
        false
    }
}

/// The error of converting tiny to classic text, for each failing input.
pub open spec fn id3_to_id32_err(v: Seq<char>, e: Error) -> bool {
    if !is_id3_text(v) {
        &&& e matches Error::InvalidSteamId(t)
        &&& t@ == v
    } else if account_type_of_char(v[0]) is None {
        e == Error::InvalidAccountTypeChar(v[0])
    } else if id3_account_num(v) > u32::MAX {
        e == Error::NumericParseFailure
    } else {
        false
    }
}

/// The error of decoding a packed identifier, for each failing value.
pub open spec fn id64_decode_err(p: u64, e: Error) -> bool {
    if universe_bits(p) > 5 {
        e == Error::InvalidUniverse(universe_bits(p))
    } else if account_type_bits(p) > 10 {
        e == Error::InvalidAccountType(account_type_bits(p))
    } else {
        false
    }
}

/// The error of packing classic text, for each failing input.
pub open spec fn id32_to_id64_err(v: Seq<char>, e: Error) -> bool {
    if !is_id32_text(v) {
        &&& e matches Error::InvalidSteamId(t)
        &&& t@ == v
    } else {
        let u0 = id32_universe_digit(v);
        let u = if u0 == 0 {
            1nat
        } else {
            u0
        };
        let srv = id32_server_digit(v);
        let a = id32_account_num(v);
        if a > u32::MAX {
            e == Error::NumericParseFailure
        } else if u > 5 {
            e == Error::InvalidUniverse(u as u64)
        } else if a >= 0x8000_0000 {
            e == Error::FieldOutOfRange(IdField::Account, a as u64)
        } else if srv > 1 {
            e == Error::FieldOutOfRange(IdField::AuthenticationServer, srv as u64)
        } else {
            false
        }
    }
}

/// The error of packing tiny text, for each failing input.
pub open spec fn id3_to_id64_err(v: Seq<char>, e: Error) -> bool {
    match spec_id3_to_id32_text(v) {
        None => id3_to_id32_err(v, e),
        Some(t) => id32_to_id64_err(t, e),
    }
}

/// Rendered classic text is valid classic text, its universe digit is `0`,
/// and its server digit and account number read back unchanged.
pub proof fn lemma_render_id32_fields(server: nat, account: nat)
    requires
        server <= 9,
    ensures
        is_id32_text(render_id32(server, account)),
        id32_universe_digit(render_id32(server, account)) == 0,
        id32_server_digit(render_id32(server, account)) == server,
        id32_account_num(render_id32(server, account)) == account,
{
    let w = render_id32(server, account);
    lemma_dec_digits_wf(account);
    lemma_parse_of_dec_digits(account);
    lemma_digit_roundtrip(server);
    assert(w.subrange(10, w.len() as int) =~= dec_digits(account));
    assert(w[6] == '0');
    assert(w[8] == digit_char(server));
}

/// Rendered tiny text is valid tiny text naming the individual account
/// type, its server digit is `1`, and its account number reads back
/// unchanged.
pub proof fn lemma_render_id3_fields(account: nat)
    ensures
        is_id3_text(render_id3(account)),
        id3_code_char(render_id3(account)) == 'U',
        account_type_of_char(id3_code_char(render_id3(account))) == Some(AccountType::Individual),
        id3_server_digit(render_id3(account)) == 1,
        id3_account_num(render_id3(account)) == account,
{
    let w = render_id3(account);
    lemma_dec_digits_wf(account);
    lemma_parse_of_dec_digits(account);
    assert(w.subrange(4, w.len() as int) =~= dec_digits(account));
    assert(w[0] == 'U');
    assert(w[2] == '1');
}

/// Checks a string against the classic text format.
fn is_id32_str(s: &str) -> (r: bool)
    ensures
        r == is_id32_text(s@),
{
    let n = s.unicode_len();
    if n < 11 {
        return false;
    }
    if s.get_char(0) != 'S' || s.get_char(1) != 'T' || s.get_char(2) != 'E' || s.get_char(3) != 'A'
        || s.get_char(4) != 'M' || s.get_char(5) != '_' {
        return false;
    }
    let u = s.get_char(6) as u32;
    if u < 48 || u > 57 {
        return false;
    }
    if s.get_char(7) != ':' {
        return false;
    }
    let v = s.get_char(8) as u32;
    if v < 48 || v > 57 {
        return false;
    }
    if s.get_char(9) != ':' {
        return false;
    }
    let mut i: usize = 10;
    while i < n
        invariant
            10 <= i <= n,
            n == s@.len(),
            forall|k: int| 10 <= k < i ==> is_digit_char(#[trigger] s@[k]),
        decreases n - i,
    {
        let c = s.get_char(i) as u32;
        if c < 48 || c > 57 {
            proof {
                assert(s@.subrange(10, s@.len() as int)[i - 10] == s@[i as int]);
            }
            return false;
        }
        i = i + 1;
    }
    proof {
        assert forall|k: int| 0 <= k < s@.len() - 10 implies is_digit_char(
            #[trigger] s@.subrange(10, s@.len() as int)[k],
        ) by {
            assert(s@.subrange(10, s@.len() as int)[k] == s@[k + 10]);
        }
    }
    true
}

/// Checks a string against the tiny text format.
fn is_id3_str(s: &str) -> (r: bool)
    ensures
        r == is_id3_text(s@),
{
    let n = s.unicode_len();
    if n < 5 {
        return false;
    }
    let c0 = s.get_char(0);
    let u0 = c0 as u32;
    let word = (48 <= u0 && u0 <= 57) || (65 <= u0 && u0 <= 90) || (97 <= u0 && u0 <= 122) || c0
        == '_';
    if !word {
        return false;
    }
    if s.get_char(1) != ':' {
        return false;
    }
    let u2 = s.get_char(2) as u32;
    if u2 < 48 || u2 > 57 {
        return false;
    }
    if s.get_char(3) != ':' {
        return false;
    }
    let mut i: usize = 4;
    while i < n
        invariant
            4 <= i <= n,
            n == s@.len(),
            forall|k: int| 4 <= k < i ==> is_digit_char(#[trigger] s@[k]),
        decreases n - i,
    {
        let c = s.get_char(i) as u32;
        if c < 48 || c > 57 {
            proof {
                assert(s@.subrange(4, s@.len() as int)[i - 4] == s@[i as int]);
            }
            return false;
        }
        i = i + 1;
    }
    proof {
        assert forall|k: int| 0 <= k < s@.len() - 4 implies is_digit_char(
            #[trigger] s@.subrange(4, s@.len() as int)[k],
        ) by {
            assert(s@.subrange(4, s@.len() as int)[k] == s@[k + 4]);
        }
    }
    true
}

/// Builds classic text from a server digit and an account number.
fn render_id32_string(server: u64, account: u64) -> (r: String)
    requires
        server <= 9,
    ensures
        r@ == render_id32(server as nat, account as nat),
{
    let mut out = String::from_str("STEAM_0:");
    out.append(digit_str(server));
    out.append(":");
    append_dec(account, &mut out);
    proof {
        reveal_strlit("STEAM_0:");
        reveal_strlit(":");
        assert(out@ =~= render_id32(server as nat, account as nat));
    }
    out
}

/// Builds tiny text from an account number.
fn render_id3_string(account: u64) -> (r: String)
    ensures
        r@ == render_id3(account as nat),
{
    let mut out = String::from_str("U:1:");
    append_dec(account, &mut out);
    proof {
        reveal_strlit("U:1:");
        assert(out@ =~= render_id3(account as nat));
    }
    out
}

/// Steam Id 32, the classic text format.
/// Example: `STEAM_0:X:XXXXXXXX`.
#[derive(Debug, Clone, PartialEq, Eq)]
pub struct Id32(pub String);

/// Steam Id 3, the tiny text format.
/// Example: `U:1:xxxxxxxx`.
#[derive(Debug, Clone, PartialEq, Eq)]
pub struct Id3(pub String);

impl Id3 {
    /// Converts classic text into tiny text: the tiny account number is the
    /// classic account doubled plus the server digit.
    pub fn try_from_id32(id: &Id32) -> (r: Result<Id3, Error>)
        ensures
            r matches Ok(t) <==> spec_id32_to_id3_text(id.0@) is Some,
            r matches Ok(t) ==> Some(t.0@) == spec_id32_to_id3_text(id.0@),
            r matches Err(e) ==> id32_to_id3_err(id.0@, e),
    {
        if !is_id32_str(id.0.as_str()) {
            return Err(Error::InvalidSteamId(id.0.clone()));
        }
        let n = id.0.as_str().unicode_len();
        let server = (id.0.as_str().get_char(8) as u32 - 48) as u64;
        let account = match parse_dec_range(id.0.as_str(), 10, n) {
            Some(v) => v,
            None => {
                return Err(Error::NumericParseFailure);
            },
        };
        if account > (u64::MAX - server) / 2 {
            proof {
                let v = id.0@;
                assert(2 * id32_account_num(v) + id32_server_digit(v) > u64::MAX);
            }
            return Err(Error::NumericParseFailure);
        }
        let num = account * 2 + server;
        Ok(Id3(render_id3_string(num)))
    }

    /// Get a detailed information about the steam account from the steam id.
    /// The tiny format cannot carry the universe, so the universe of the
    /// result is always the unspecified one, and the instance defaults to
    /// one.
    pub fn info(&self) -> (r: Result<Info, Error>)
        ensures
            r matches Ok(i) <==> (is_id3_text(self.0@) && account_type_of_char(self.0@[0]) is Some
                && id3_account_num(self.0@) <= u32::MAX),
            r matches Ok(i) ==> i == (Info {
                universe: Universe::IndividualOrUnspecified,
                account_type: account_type_of_char(self.0@[0]).unwrap(),
                instance: 1,
                account: id3_account_num(self.0@) as u32,
                authentication_server: id3_server_digit(self.0@) as u8,
            }),
            r matches Err(e) ==> id3_to_id32_err(self.0@, e),
    {
        if !is_id3_str(self.0.as_str()) {
            return Err(Error::InvalidSteamId(self.0.clone()));
        }
        let n = self.0.as_str().unicode_len();
        let code = self.0.as_str().get_char(0);
        let account_type = match AccountType::try_from_char(code) {
            Ok(t) => t,
            Err(e) => {
                return Err(e);
            },
        };
        let authentication_server = (self.0.as_str().get_char(2) as u32 - 48) as u8;
        let account = match parse_dec_range(self.0.as_str(), 4, n) {
            Some(v) => v,
            None => {
                return Err(Error::NumericParseFailure);
            },
        };
        if account > u32::MAX as u64 {
            return Err(Error::NumericParseFailure);
        }
        Ok(
            Info {
                universe: Universe::IndividualOrUnspecified,
                account_type,
                instance: 1,
                account: account as u32,
                authentication_server,
            },
        )
    }
}

impl Id32 {
    /// Converts tiny text into classic text: the classic account is half the
    /// tiny account number and the server digit its parity. The universe
    /// digit of the result is always `0`.
    pub fn try_from_id3(id: &Id3) -> (r: Result<Id32, Error>)
        ensures
            r matches Ok(t) <==> spec_id3_to_id32_text(id.0@) is Some,
            r matches Ok(t) ==> Some(t.0@) == spec_id3_to_id32_text(id.0@),
            r matches Err(e) ==> id3_to_id32_err(id.0@, e),
    {
        if !is_id3_str(id.0.as_str()) {
            return Err(Error::InvalidSteamId(id.0.clone()));
        }
        let n = id.0.as_str().unicode_len();
        let code = id.0.as_str().get_char(0);
        match AccountType::try_from_char(code) {
            Ok(_) => {},
            Err(e) => {
                return Err(e);
            },
        }
        let account = match parse_dec_range(id.0.as_str(), 4, n) {
            Some(v) => v,
            None => {
                return Err(Error::NumericParseFailure);
            },
        };
        if account > u32::MAX as u64 {
            return Err(Error::NumericParseFailure);
        }
        let half = account / 2;
        let parity = account % 2;
        Ok(Id32(render_id32_string(parity, half)))
    }

    /// Renders a packed identifier as classic text. The universe digit of
    /// the result is hardcoded to `0` whatever the decoded universe says:
    /// observed client behaviour, off the published layout.
    pub fn try_from_id64(id: Id64) -> (r: Result<Id32, Error>)
        ensures
            r matches Ok(t) <==> decodes_ok(id.0),
            r matches Ok(t) ==> Some(t.0@) == spec_id64_to_id32_text(id.0),
            r matches Err(e) ==> id64_decode_err(id.0, e),
    {
        let info = match id.info() {
            Ok(i) => i,
            Err(e) => {
                return Err(e);
            },
        };
        proof {
            lemma_field_bounds(id.0);
        }
        Ok(Id32(render_id32_string(info.authentication_server as u64, info.account as u64)))
    }
}

impl Id64 {
    /// Packs classic text. A parsed universe digit of `0` is coerced to `1`
    /// before encoding, since `0` is not a legal universe on the wire;
    /// account type and instance take their default values.
    pub fn try_from_id32(id: &Id32) -> (r: Result<Id64, Error>)
        ensures
            r matches Ok(n) <==> spec_id32_to_id64(id.0@) is Some,
            r matches Ok(n) ==> Some(n.0) == spec_id32_to_id64(id.0@),
            r matches Err(e) ==> id32_to_id64_err(id.0@, e),
    {
        if !is_id32_str(id.0.as_str()) {
            return Err(Error::InvalidSteamId(id.0.clone()));
        }
        let n = id.0.as_str().unicode_len();
        let mut universe = (id.0.as_str().get_char(6) as u32 - 48) as u64;
        let authentication_server = (id.0.as_str().get_char(8) as u32 - 48) as u8;
        let account = match parse_dec_range(id.0.as_str(), 10, n) {
            Some(v) => v,
            None => {
                return Err(Error::NumericParseFailure);
            },
        };
        if account > u32::MAX as u64 {
            return Err(Error::NumericParseFailure);
        }
        if universe == 0 {
            universe = 1;
        }
        let universe = match Universe::try_from(universe) {
            Ok(u) => u,
            Err(e) => {
                return Err(e);
            },
        };
        Id64::new_simple(universe, authentication_server, account as u32)
    }

    /// Packs tiny text, going through classic text: there is no direct path.
    pub fn try_from_id3(id: &Id3) -> (r: Result<Id64, Error>)
        ensures
            r matches Ok(n) <==> spec_id3_to_id64(id.0@) is Some,
            r matches Ok(n) ==> Some(n.0) == spec_id3_to_id64(id.0@),
            r matches Err(e) ==> id3_to_id64_err(id.0@, e),
    {
        let id32 = match Id32::try_from_id3(id) {
            Ok(t) => t,
            Err(e) => {
                return Err(e);
            },
        };
        proof {
            let v = id.0@;
            let a = id3_account_num(v);
            lemma_render_id32_fields(a % 2, a / 2);
        }
        Id64::try_from_id32(&id32)
    }
}

/// Holds a steam id in any of its three formats.
///
/// The derived equality compares format and payload; [`Id::is_same`]
/// compares what the ids name, across formats.
#[derive(Debug, Clone, PartialEq, Eq)]
pub enum Id {
    /// Steam ID in a single integer format (SteamID64).
    /// Example: `7656119xxxxxxxxxx`.
    Id64(Id64),
    /// Steam ID 32 in the default format, starting with `STEAM_0`.
    /// Example: `STEAM_0:X:XXXXXXXX`.
    Id32(Id32),
    /// Steam ID in the format called "Steam ID 3".
    /// Example: `U:1:xxxxxxxx`.
    Id3(Id3),
}

/// The canonical packed value an id names, when its format converts. A
/// packed id stands for itself, unvalidated: validation happens on decode.
pub open spec fn id64_value(id: Id) -> Option<u64> {
    match id {
        Id::Id64(n) => Some(n.0),
        Id::Id32(s) => spec_id32_to_id64(s.0@),
        Id::Id3(s) => spec_id3_to_id64(s.0@),
    }
}

/// The classic text an id converts to. Classic text stands for itself,
/// unvalidated, as the conversion to the held format is the identity.
pub open spec fn id32_text_value(id: Id) -> Option<Seq<char>> {
    match id {
        Id::Id64(n) => spec_id64_to_id32_text(n.0),
        Id::Id32(s) => Some(s.0@),
        Id::Id3(s) => spec_id3_to_id32_text(s.0@),
    }
}

/// The display text of an id: a packed id renders as its decimal digits,
/// either text format verbatim as stored.
pub open spec fn id_display(id: Id) -> Seq<char> {
    match id {
        Id::Id64(n) => dec_digits(n.0 as nat),
        Id::Id32(s) => s.0@,
        Id::Id3(s) => s.0@,
    }
}

/// The error of normalizing an id to the packed format, for each failing id.
pub open spec fn id_to_id64_err(id: Id, e: Error) -> bool {
    match id {
        Id::Id64(n) => false,
        Id::Id32(s) => id32_to_id64_err(s.0@, e),
        Id::Id3(s) => id3_to_id64_err(s.0@, e),
    }
}

/// The error of normalizing an id to classic text, for each failing id.
pub open spec fn id_to_id32_err(id: Id, e: Error) -> bool {
    match id {
        Id::Id64(n) => id64_decode_err(n.0, e),
        Id::Id32(s) => false,
        Id::Id3(s) => id3_to_id32_err(s.0@, e),
    }
}

impl Id {
    /// Converts (if needed) the current id format into id64. An id already
    /// in that format is returned unchanged, without validation.
    pub fn id64(&self) -> (r: Result<Id64, Error>)
        ensures
            r matches Ok(n) <==> id64_value(*self) is Some,
            r matches Ok(n) ==> Some(n.0) == id64_value(*self),
            r matches Err(e) ==> id_to_id64_err(*self, e),
    {
        match self {
            Id::Id64(num) => Ok(*num),
            Id::Id32(id) => Id64::try_from_id32(id),
            Id::Id3(id) => Id64::try_from_id3(id),
        }
    }

    /// Converts (if needed) the current id format into id32. An id already
    /// in that format is returned unchanged, without validation.
    pub fn id32(&self) -> (r: Result<Id32, Error>)
        ensures
            r matches Ok(t) <==> id32_text_value(*self) is Some,
            r matches Ok(t) ==> Some(t.0@) == id32_text_value(*self),
            r matches Err(e) ==> id_to_id32_err(*self, e),
    {
        match self {
            Id::Id64(num) => Id32::try_from_id64(*num),
            Id::Id32(id) => Ok(Id32(id.0.clone())),
            Id::Id3(id) => Id32::try_from_id3(id),
        }
    }

    /// Consumes the object and converts it into a steam id in the id64
    /// format.
    pub fn into_id64(self) -> (r: Result<Id, Error>)
        ensures
            r matches Ok(id) <==> id64_value(self) is Some,
            r matches Ok(id) ==> (id matches Id::Id64(n) && Some(n.0) == id64_value(self)),
            r matches Err(e) ==> id_to_id64_err(self, e),
    {
        match self.id64() {
            Ok(n) => Ok(Id::Id64(n)),
            Err(e) => Err(e),
        }
    }

    /// Consumes the object and converts it into a steam id in the id32
    /// format.
    pub fn into_id32(self) -> (r: Result<Id, Error>)
        ensures
            r matches Ok(id) <==> id32_text_value(self) is Some,
            r matches Ok(id) ==> (id matches Id::Id32(t) && Some(t.0@) == id32_text_value(self)),
            r matches Err(e) ==> id_to_id32_err(self, e),
    {
        match self.id32() {
            Ok(t) => Ok(Id::Id32(t)),
            Err(e) => Err(e),
        }
    }

    /// Attempts to compare two ids. Returns `true` when they name the same
    /// account, even using different formats: both sides are normalized to
    /// the packed format and compared by value.
    pub fn is_same(&self, other: &Id) -> (r: Result<bool, Error>)
        ensures
            r matches Ok(b) <==> (id64_value(*self) is Some && id64_value(*other) is Some),
            r matches Ok(b) ==> b == (id64_value(*self) == id64_value(*other)),
            r matches Err(e) ==> id_to_id64_err(*self, e) || id_to_id64_err(*other, e),
    {
        let a = match self.id64() {
            Ok(n) => n,
            Err(e) => {
                return Err(e);
            },
        };
        let b = match other.id64() {
            Ok(n) => n,
            Err(e) => {
                return Err(e);
            },
        };
        Ok(a.0 == b.0)
    }

    /// Reads an id from text: first as a packed decimal number, then as
    /// classic text, then as tiny text. The text is stored as given; no
    /// validation beyond the format happens here.
    pub fn from_str(value: &str) -> (r: Result<Id, Error>)
        ensures
            is_dec_u64_text(value@) ==> (r matches Ok(id) && id matches Id::Id64(n) && n.0
                == parse_digits(value@)),
            !is_dec_u64_text(value@) && is_id32_text(value@) ==> (r matches Ok(id) && id matches
                Id::Id32(t) && t.0@ == value@),
            !is_dec_u64_text(value@) && !is_id32_text(value@) && is_id3_text(value@) ==> (r matches
                Ok(id) && id matches Id::Id3(t) && t.0@ == value@),
            !is_dec_u64_text(value@) && !is_id32_text(value@) && !is_id3_text(value@) ==> (r
                matches Err(e) && e matches Error::InvalidSteamId(t) && t@ == value@),
    {
        if let Some(v) = parse_u64_text(value) {
            return Ok(Id::Id64(Id64(v)));
        }
        if is_id32_str(value) {
            return Ok(Id::Id32(Id32(value.to_owned())));
        }
        if is_id3_str(value) {
            return Ok(Id::Id3(Id3(value.to_owned())));
        }
        Err(Error::InvalidSteamId(value.to_owned()))
    }

    /// The id as display text: a packed id as its decimal digits, either
    /// text format verbatim as stored.
    pub fn display_string(&self) -> (r: String)
        ensures
            r@ == id_display(*self),
    {
        match self {
            Id::Id64(num) => u64_to_dec_string(num.0),
            Id::Id32(s) => s.0.clone(),
            Id::Id3(s) => s.0.clone(),
        }
    }

    /// Reads an id from a packed number, validating that it decodes.
    pub fn try_from(id: u64) -> (r: Result<Id, Error>)
        ensures
            decodes_ok(id) ==> (r matches Ok(i) && i matches Id::Id64(n) && n.0 == id),
            !decodes_ok(id) ==> (r matches Err(e) && id64_decode_err(id, e)),
    {
        let candidate = Id64(id);
        if let Err(e) = candidate.info() {
            return Err(e);
        }
        Ok(Id::Id64(candidate))
    }
}

/// For any valid decoded view, re-encoding every one of its five fields
/// reproduces the packed identifier it came from, bit for bit.
pub proof fn lemma_info_reencode(p: u64)
    requires
        decodes_ok(p),
    ensures
        ({
            let i = spec_info(p);
            packed_of(
                universe_code(i.universe),
                account_type_code(i.account_type),
                i.instance as u64,
                i.account as u64,
                i.authentication_server as u64,
            ) == p
        }),
{
    lemma_field_bounds(p);
    lemma_decode_then_encode(p);
}

/// For any in-range field values, the identifier packed from them decodes,
/// and its decoded view holds exactly those values.
pub proof fn lemma_new_full_decodes(
    universe: Universe,
    account_type: AccountType,
    instance: u32,
    account: u32,
    authentication_server: u8,
)
    requires
        instance < 0x100000,
        account < 0x8000_0000,
        authentication_server <= 1,
    ensures
        ({
            let p = packed_of(
                universe_code(universe),
                account_type_code(account_type),
                instance as u64,
                account as u64,
                authentication_server as u64,
            );
            &&& decodes_ok(p)
            &&& spec_info(p) == (Info {
                universe,
                account_type,
                instance,
                account,
                authentication_server,
            })
        }),
{
    lemma_encode_then_decode(
        universe_code(universe),
        account_type_code(account_type),
        instance as u64,
        account as u64,
        authentication_server as u64,
    );
}

/// A round trip through classic text is the identity on every packed id
/// whose universe is public and whose account type and instance hold the
/// default values: exactly the ids the classic format can spell. The
/// rendered universe digit `0` and its coercion back to `1` cancel out.
pub proof fn lemma_packed_id32_roundtrip(p: u64)
    requires
        universe_bits(p) == 1,
        account_type_bits(p) == 1,
        instance_bits(p) == 1,
    ensures
        spec_id64_to_id32_text(p) == Some(
            render_id32(auth_server_bits(p) as nat, account_bits(p) as nat),
        ),
        spec_id32_to_id64(render_id32(auth_server_bits(p) as nat, account_bits(p) as nat)) == Some(
            p,
        ),
{
    lemma_field_bounds(p);
    lemma_render_id32_fields(auth_server_bits(p) as nat, account_bits(p) as nat);
    lemma_decode_then_encode(p);
}

/// A round trip from tiny text through the packed format and classic text
/// back to tiny text is the identity, for every tiny account number the
/// conversions accept.
pub proof fn lemma_tiny_packed_tiny_roundtrip(account: nat)
    requires
        account <= u32::MAX,
    ensures
        ({
            let t = render_id3(account);
            let p = packed_of(1, 1, 1, (account / 2) as u64, (account % 2) as u64);
            &&& spec_id3_to_id64(t) == Some(p)
            &&& spec_id64_to_id32_text(p) == Some(render_id32(account % 2, account / 2))
            &&& spec_id32_to_id3_text(render_id32(account % 2, account / 2)) == Some(t)
        }),
{
    let t = render_id3(account);
    let p = packed_of(1, 1, 1, (account / 2) as u64, (account % 2) as u64);
    lemma_render_id3_fields(account);
    lemma_render_id32_fields(account % 2, account / 2);
    lemma_encode_then_decode(1, 1, 1, (account / 2) as u64, (account % 2) as u64);
    assert(2 * (account / 2) + account % 2 == account) by (nonlinear_arith);
}

/// One round trip between classic and tiny text is the identity on
/// canonical classic text: doubling the account and adding the server digit
/// is exactly undone by halving and taking the parity, for every account
/// below `2^31` and either server digit.
pub proof fn lemma_short_tiny_short_roundtrip(server: nat, account: nat)
    requires
        server <= 1,
        account < 0x8000_0000,
    ensures
        spec_id32_to_id3_text(render_id32(server, account)) == Some(
            render_id3(2 * account + server),
        ),
        spec_id3_to_id32_text(render_id3(2 * account + server)) == Some(
            render_id32(server, account),
        ),
{
    let w = render_id32(server, account);
    let t = render_id3(2 * account + server);
    lemma_render_id32_fields(server, account);
    lemma_render_id3_fields(2 * account + server);
    assert((2 * account + server) % 2 == server && (2 * account + server) / 2 == account) by (
    nonlinear_arith)
        requires
            server <= 1,
    ;
}

} // verus!
