use vstd::prelude::*;
use vstd::string::*;

use crate::error::{MotdError, MotdErrorCode};

verus! {

/// The `;`-separated pieces of `s`, empty ones included: there is always one
/// more piece than there are separators.
pub open spec fn pieces(s: Seq<char>) -> Seq<Seq<char>>
    decreases s.len(),
{
    if s.len() == 0 {
        seq![Seq::<char>::empty()]
    } else {
        let before = pieces(s.drop_last());
        if s.last() == ';' {
            before.push(Seq::<char>::empty())
        } else {
            before.update(before.len() - 1, before.last().push(s.last()))
        }
    }
}

pub open spec fn is_nonempty(p: Seq<char>) -> bool {
    p.len() > 0
}

/// The non-empty `;`-separated tokens of `s`, in order.
pub open spec fn tokens(s: Seq<char>) -> Seq<Seq<char>> {
    pieces(s).filter(|p: Seq<char>| is_nonempty(p))
}

proof fn lemma_filter_push(x: Seq<Seq<char>>, e: Seq<char>)
    ensures
        x.push(e).filter(|p: Seq<char>| is_nonempty(p)) == if is_nonempty(e) {
            x.filter(|p: Seq<char>| is_nonempty(p)).push(e)
        } else {
            x.filter(|p: Seq<char>| is_nonempty(p))
        },
{
    reveal(Seq::filter);
    assert(x.push(e).drop_last() =~= x);
}

/// Relies on `str::split` with a `char` pattern: the pieces between the
/// separators, in order, empty ones included, so that a string with n
/// separators gives n + 1 pieces.
#[verifier::external_body]
fn split_on_semicolons(s: &str) -> (r: Vec<String>)
    ensures
        r@.len() == pieces(s@).len(),
        forall|i: int| 0 <= i < r@.len() ==> #[trigger] r@[i]@ == pieces(s@)[i],
{
    s.split(';').map(String::from).collect()
}

/// Splits the server id string on `;` and drops the empty tokens, keeping
/// their order (`"a;;b;c"` gives `a`, `b`, `c`).
pub fn split_server_id_string(s: &str) -> (r: Vec<String>)
    ensures
        r@.len() == tokens(s@).len(),
        forall|i: int| 0 <= i < r@.len() ==> #[trigger] r@[i]@ == tokens(s@)[i],
{
    let all = split_on_semicolons(s);
    let ghost ps = pieces(s@);
    let ghost keep = |p: Seq<char>| is_nonempty(p);
    let mut out: Vec<String> = Vec::new();
    let mut i: usize = 0;
    proof {
        reveal(Seq::filter);
        assert(ps.subrange(0, 0).filter(keep) =~= Seq::<Seq<char>>::empty());
    }
    while i < all.len()
        invariant
            i <= all@.len() == ps.len(),
            ps == pieces(s@),
            keep == (|p: Seq<char>| is_nonempty(p)),
            forall|k: int| 0 <= k < all@.len() ==> #[trigger] all@[k]@ == ps[k],
            out@.len() == ps.subrange(0, i as int).filter(keep).len(),
            forall|k: int|
                0 <= k < out@.len() ==> #[trigger] out@[k]@ == ps.subrange(0, i as int).filter(
                    keep,
                )[k],
        decreases all@.len() - i,
    {
        let ghost before = out@;
        proof {
            assert(ps.subrange(0, i as int + 1) =~= ps.subrange(0, i as int).push(ps[i as int]));
            lemma_filter_push(ps.subrange(0, i as int), ps[i as int]);
            assert(all@[i as int]@ == ps[i as int]);
        }
        if !all[i].as_str().is_empty() {
            out.push(all[i].clone());
            proof {
                assert forall|k: int| 0 <= k < out@.len() implies #[trigger] out@[k]@
                    == ps.subrange(0, i as int + 1).filter(keep)[k] by {
                    if k < out@.len() - 1 {
                        assert(out@[k] == before[k]);
                    }
                }
            }
        }
        i = i + 1;
    }
    proof {
        assert(ps.subrange(0, i as int) =~= ps);
    }
    out
}

pub open spec fn is_ascii_digit(c: char) -> bool {
    '0' <= c && c <= '9'
}

/// One or more ASCII digits.
pub open spec fn all_digits(d: Seq<char>) -> bool {
    d.len() > 0 && forall|i: int| 0 <= i < d.len() ==> is_ascii_digit(#[trigger] d[i])
}

/// The value of a string of decimal digits.
pub open spec fn digits_value(d: Seq<char>) -> int
    decreases d.len(),
{
    if d.len() == 0 {
        0
    } else {
        10 * digits_value(d.drop_last()) + (d.last() as int - '0' as int)
    }
}

/// The integer that `t` writes in decimal: an optional `+` sign (or `-`, where
/// `signed`), then one or more ASCII digits and nothing else.
pub open spec fn decimal_value(t: Seq<char>, signed: bool) -> Option<int> {
    if t.len() > 0 && t[0] == '+' {
        if all_digits(t.drop_first()) {
            Some(digits_value(t.drop_first()))
        } else {
            None
        }
    } else if signed && t.len() > 0 && t[0] == '-' {
        if all_digits(t.drop_first()) {
            Some(-digits_value(t.drop_first()))
        } else {
            None
        }
    } else if all_digits(t) {
        Some(digits_value(t))
    } else {
        None
    }
}

/// The integer that `t` writes, where it lies in `lo..=hi`.
pub open spec fn int_in(t: Seq<char>, signed: bool, lo: int, hi: int) -> Option<int> {
    match decimal_value(t, signed) {
        Some(v) => if lo <= v && v <= hi {
            Some(v)
        } else {
            None
        },
        None => None,
    }
}

/// Relies on `str::parse::<i16>`: it accepts an optional `+` or `-` sign followed by
/// ASCII digits only, and fails on anything else or on a value outside `i16`.
#[verifier::external_body]
fn parse_i16(t: &str) -> (r: Option<i16>)
    ensures
        match int_in(t@, true, i16::MIN as int, i16::MAX as int) {
            Some(v) => r == Some(v as i16),
            None => r is None,
        },
{
    t.parse::<i16>().ok()
}

/// Relies on `str::parse::<i32>`: it accepts an optional `+` or `-` sign followed by
/// ASCII digits only, and fails on anything else or on a value outside `i32`.
#[verifier::external_body]
fn parse_i32(t: &str) -> (r: Option<i32>)
    ensures
        match int_in(t@, true, i32::MIN as int, i32::MAX as int) {
            Some(v) => r == Some(v as i32),
            None => r is None,
        },
{
    t.parse::<i32>().ok()
}

/// Relies on `str::parse::<u8>`: it accepts an optional `+` sign followed by ASCII
/// digits only, and fails on anything else or on a value outside `u8`.
#[verifier::external_body]
fn parse_u8(t: &str) -> (r: Option<u8>)
    ensures
        match int_in(t@, false, 0, u8::MAX as int) {
            Some(v) => r == Some(v as u8),
            None => r is None,
        },
{
    t.parse::<u8>().ok()
}

/// Relies on `str::parse::<u16>`: it accepts an optional `+` sign followed by ASCII
/// digits only, and fails on anything else or on a value outside `u16`.
#[verifier::external_body]
fn parse_u16(t: &str) -> (r: Option<u16>)
    ensures
        match int_in(t@, false, 0, u16::MAX as int) {
            Some(v) => r == Some(v as u16),
            None => r is None,
        },
{
    t.parse::<u16>().ok()
}

/// Parsed server id string.
/// Fields that the server left out are filled with their defaults; whether that
/// happened is reported by `parse_server_id_string` beside the value.
#[derive(Debug)]
pub struct ServerIdStringParsed {
    /// Server minecraft edition (MCPE or MCEE).
    pub edition: String,
    /// Text that is displayed in the server tab.
    pub motd: String,
    /// Minecraft protocol version (e.g. 615).
    pub protocol_version: i16,
    /// Minecraft version name (e.g. 1.20.30).
    pub version_name: String,
    /// How many players is playing on the server.
    pub player_count: i32,
    /// How many players can be playing on the server at the same time.
    pub max_player_count: i32,
    /// Some unique id.
    pub server_unique_id: String,
    /// Map name (display in esc menu at the right top).
    pub level_name: String,
    /// Default gamemode.
    pub gamemode: String,
    /// Default gamemode but number.
    pub gamemode_numeric: u8,
    /// Port used for IPv4 communication.
    pub port_v4: u16,
    /// Port used for IPv6 communication.
    pub port_v6: u16,
}

/// The fields of a `ServerIdStringParsed`, with its strings as character sequences.
pub struct StatusView {
    pub edition: Seq<char>,
    pub motd: Seq<char>,
    pub protocol_version: i16,
    pub version_name: Seq<char>,
    pub player_count: i32,
    pub max_player_count: i32,
    pub server_unique_id: Seq<char>,
    pub level_name: Seq<char>,
    pub gamemode: Seq<char>,
    pub gamemode_numeric: u8,
    pub port_v4: u16,
    pub port_v6: u16,
}

impl View for ServerIdStringParsed {
    type V = StatusView;

    open spec fn view(&self) -> StatusView {
        StatusView {
            edition: self.edition@,
            motd: self.motd@,
            protocol_version: self.protocol_version,
            version_name: self.version_name@,
            player_count: self.player_count,
            max_player_count: self.max_player_count,
            server_unique_id: self.server_unique_id@,
            level_name: self.level_name@,
            gamemode: self.gamemode@,
            gamemode_numeric: self.gamemode_numeric,
            port_v4: self.port_v4,
            port_v6: self.port_v6,
        }
    }
}

/// Port that a Bedrock server listens on when it names none.
pub const DEFAULT_PORT: u16 = 19132;

/// Token `idx` is there but does not write an integer in `lo..=hi`.
pub open spec fn malformed(toks: Seq<Seq<char>>, idx: int, signed: bool, lo: int, hi: int) -> bool {
    idx < toks.len() && int_in(toks[idx], signed, lo, hi) is None
}

/// The integer of token `idx`, or `dflt` where the token is absent.
pub open spec fn int_field(
    toks: Seq<Seq<char>>,
    idx: int,
    signed: bool,
    lo: int,
    hi: int,
    dflt: int,
) -> int {
    if idx < toks.len() {
        int_in(toks[idx], signed, lo, hi)->0
    } else {
        dflt
    }
}

/// Token `idx`, or `dflt` where it is absent.
pub open spec fn text_field(toks: Seq<Seq<char>>, idx: int, dflt: Seq<char>) -> Seq<char> {
    if idx < toks.len() {
        toks[idx]
    } else {
        dflt
    }
}

/// The error that the tokens of a server id string give, if any: too few tokens,
/// or the first numeric field, in field order, that is present but malformed.
pub open spec fn status_error(toks: Seq<Seq<char>>) -> Option<MotdErrorCode> {
    if toks.len() < 4 {
        Some(MotdErrorCode::ServerIdStringTooSmall)
    } else if malformed(toks, 2, true, i16::MIN as int, i16::MAX as int) {
        Some(MotdErrorCode::CantParseProtocolVersion)
    } else if malformed(toks, 4, true, i32::MIN as int, i32::MAX as int) {
        Some(MotdErrorCode::CantParsePlayerCount)
    } else if malformed(toks, 5, true, i32::MIN as int, i32::MAX as int) {
        Some(MotdErrorCode::CantParsePlayerMaxCount)
    } else if malformed(toks, 9, false, 0, u8::MAX as int) {
        Some(MotdErrorCode::CantParseGameModeNum)
    } else if malformed(toks, 10, false, 0, u16::MAX as int) {
        Some(MotdErrorCode::CantParsePort4)
    } else if malformed(toks, 11, false, 0, u16::MAX as int) {
        Some(MotdErrorCode::CantParsePort6)
    } else {
        None
    }
}

/// The fields that well-formed tokens give, absent optional fields defaulted.
pub open spec fn status_fields(toks: Seq<Seq<char>>) -> StatusView {
    StatusView {
        edition: toks[0],
        motd: toks[1],
        protocol_version: int_in(toks[2], true, i16::MIN as int, i16::MAX as int)->0 as i16,
        version_name: toks[3],
        player_count: int_field(toks, 4, true, i32::MIN as int, i32::MAX as int, -1) as i32,
        max_player_count: int_field(toks, 5, true, i32::MIN as int, i32::MAX as int, -1) as i32,
        server_unique_id: text_field(toks, 6, Seq::<char>::empty()),
        level_name: text_field(toks, 7, Seq::<char>::empty()),
        gamemode: text_field(toks, 8, "Survival"@),
        gamemode_numeric: int_field(toks, 9, false, 0, u8::MAX as int, 0) as u8,
        port_v4: int_field(toks, 10, false, 0, u16::MAX as int, DEFAULT_PORT as int) as u16,
        port_v6: int_field(toks, 11, false, 0, u16::MAX as int, DEFAULT_PORT as int) as u16,
    }
}

/// No optional field was left out, so none was defaulted.
pub open spec fn status_complete(toks: Seq<Seq<char>>) -> bool {
    toks.len() >= 12
}

/// What parsing the server id string `s` gives: the fields and whether all of
/// them were present, or the error.
pub open spec fn parse_status_spec(s: Seq<char>) -> Result<(StatusView, bool), MotdErrorCode> {
    let toks = tokens(s);
    match status_error(toks) {
        Some(code) => Err(code),
        None => Ok((status_fields(toks), status_complete(toks))),
    }
}

fn text_or(toks: &Vec<String>, idx: usize, dflt: &str) -> (r: String)
    ensures
        r@ == text_field(toks@.map_values(|t: String| t@), idx as int, dflt@),
{
    if idx < toks.len() {
        toks[idx].clone()
    } else {
        String::from_str(dflt)
    }
}

/// Parses a server id string: `edition;motd;protocol_version;version_name`, then
/// optionally `player_count;max_player_count;server_unique_id;level_name;gamemode;
/// gamemode_numeric;port_v4;port_v6`, in that order, empty tokens dropped.
///
/// The first four fields are required. An optional field that is left out gets
/// its default (-1 players, an empty id or level name, "Survival", game mode 0,
/// port 19132) and makes the returned flag false; one that is present must
/// parse, or the whole call fails.
pub fn parse_server_id_string(s: &str) -> (r: Result<(ServerIdStringParsed, bool), MotdError>)
    ensures
        match parse_status_spec(s@) {
            Ok((v, complete)) => r is Ok && r->Ok_0.0@ == v && r->Ok_0.1 == complete,
            Err(code) => r is Err && r->Err_0.code == code,
        },
{
    let toks = split_server_id_string(s);
    let ghost tv = tokens(s@);
    proof {
        assert(toks@.map_values(|t: String| t@) =~= tv);
    }
    let n = toks.len();
    if n < 4 {
        return Err(MotdError::new(MotdErrorCode::ServerIdStringTooSmall));
    }
    let protocol_version = match parse_i16(toks[2].as_str()) {
        Some(v) => v,
        None => {
            return Err(MotdError::new(MotdErrorCode::CantParseProtocolVersion));
        },
    };
    let player_count: i32 = if n > 4 {
        match parse_i32(toks[4].as_str()) {
            Some(v) => v,
            None => {
                return Err(MotdError::new(MotdErrorCode::CantParsePlayerCount));
            },
        }
    } else {
        -1
    };
    let max_player_count: i32 = if n > 5 {
        match parse_i32(toks[5].as_str()) {
            Some(v) => v,
            None => {
                return Err(MotdError::new(MotdErrorCode::CantParsePlayerMaxCount));
            },
        }
    } else {
        -1
    };
    let gamemode_numeric: u8 = if n > 9 {
        match parse_u8(toks[9].as_str()) {
            Some(v) => v,
            None => {
                return Err(MotdError::new(MotdErrorCode::CantParseGameModeNum));
            },
        }
    } else {
        0
    };
    let port_v4: u16 = if n > 10 {
        match parse_u16(toks[10].as_str()) {
            Some(v) => v,
            None => {
                return Err(MotdError::new(MotdErrorCode::CantParsePort4));
            },
        }
    } else {
        DEFAULT_PORT
    };
    let port_v6: u16 = if n > 11 {
        match parse_u16(toks[11].as_str()) {
            Some(v) => v,
            None => {
                return Err(MotdError::new(MotdErrorCode::CantParsePort6));
            },
        }
    } else {
        DEFAULT_PORT
    };
    // Every field past the fourth is optional, and the last one is numeric: a
    // default was used exactly when the last field is absent.
    let complete = n >= 12;
    let parsed = ServerIdStringParsed {
        edition: toks[0].clone(),
        motd: toks[1].clone(),
        protocol_version,
        version_name: toks[3].clone(),
        player_count,
        max_player_count,
        server_unique_id: text_or(&toks, 6, ""),
        level_name: text_or(&toks, 7, ""),
        gamemode: text_or(&toks, 8, "Survival"),
        gamemode_numeric,
        port_v4,
        port_v6,
    };
    proof {
        reveal_strlit("");
        assert(""@ =~= Seq::<char>::empty());
    }
    Ok((parsed, complete))
}

/// A server id string with at least four tokens whose third token is not an
/// `i16` fails with `CantParseProtocolVersion`, whatever tokens follow.
pub proof fn lemma_bad_protocol_version(s: Seq<char>)
    requires
        tokens(s).len() >= 4,
        int_in(tokens(s)[2], true, i16::MIN as int, i16::MAX as int) is None,
    ensures
        parse_status_spec(s) == Err::<(StatusView, bool), MotdErrorCode>(
            MotdErrorCode::CantParseProtocolVersion,
        ),
{
}

/// A server id string of exactly four tokens with a valid protocol version
/// parses: its four fields are the tokens, every optional field takes its
/// default, and the string is reported incomplete.
pub proof fn lemma_four_tokens_take_defaults(s: Seq<char>)
    requires
        tokens(s).len() == 4,
        int_in(tokens(s)[2], true, i16::MIN as int, i16::MAX as int) is Some,
    ensures
        parse_status_spec(s) is Ok,
        ({
            let (v, complete) = parse_status_spec(s)->Ok_0;
            &&& v.edition == tokens(s)[0]
            &&& v.motd == tokens(s)[1]
            &&& v.protocol_version as int == int_in(
                tokens(s)[2],
                true,
                i16::MIN as int,
                i16::MAX as int,
            )->0
            &&& v.version_name == tokens(s)[3]
            &&& v.player_count == -1
            &&& v.max_player_count == -1
            &&& v.server_unique_id.len() == 0
            &&& v.level_name.len() == 0
            &&& v.gamemode == "Survival"@
            &&& v.gamemode_numeric == 0
            &&& v.port_v4 == 19132
            &&& v.port_v6 == 19132
            &&& !complete
        }),
{
}

} // verus!
