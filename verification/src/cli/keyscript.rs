//! Unlocking at boot: what the unlock screen knows and says.

use vstd::prelude::*;
use vstd::string::StringExecFns;
use vstd::utf8::{decode_utf8, encode_utf8, encode_utf8_decode_utf8, is_char_boundary};
use crate::config::Cfg;
use crate::utils::base_x::string_of;

verus! {

/// Tries allowed where the environment names no number.
pub const DEFAULT_TRIES: u32 = 3;

/// Longest name, in bytes, that is shown whole.
pub const SHORT_LIMIT: usize = 13;

/// Bytes cut from the front of a name that is shown shortened.
pub const SHORT_SKIP: usize = 10;

/// The number that a text stands for in the eyes of `u32`'s parser; none
/// where it stands for none.
pub uninterp spec fn parsed_u32(text: Seq<char>) -> Option<u32>;

/// Calls `str::parse::<u32>`.
/// Claimed: whether and to what a text parses depends on the text alone.
#[verifier::external_body]
fn parse_u32(text: &str) -> (r: Option<u32>)
    ensures
        r == parsed_u32(text@),
{
    text.parse::<u32>().ok()
}

/// What the unlock screen knows.
pub struct Executor {
    cfg: Cfg,
    source_name: String,
    target_name: String,
    max_try: u32,
    tried: u32,
}

/// The name to show where the environment gives none.
pub open spec fn name_or_unknown(name: Option<String>) -> Seq<char> {
    match name {
        Some(n) => n@,
        None => "UNKNOWN"@,
    }
}

/// The number of tries allowed: three where the environment names none,
/// zero, which stands for no limit, where what it names is no number.
pub open spec fn tries_allowed(tries: Option<String>) -> u32 {
    match tries {
        None => DEFAULT_TRIES,
        Some(t) => match parsed_u32(t@) {
            Some(v) => v,
            None => 0,
        },
    }
}

/// The number of tries made: zero where the environment names none or
/// what it names is no number.
pub open spec fn tries_made(tried: Option<String>) -> u32 {
    match tried {
        None => 0,
        Some(t) => match parsed_u32(t@) {
            Some(v) => v,
            None => 0,
        },
    }
}

/// A name as the screen shows it: whole up to 13 bytes, else three dots and
/// what follows its first 10 bytes.
pub open spec fn spec_short(x: Seq<char>) -> Seq<char> {
    let bytes = encode_utf8(x);
    if bytes.len() > SHORT_LIMIT {
        "..."@ + decode_utf8(bytes.subrange(SHORT_SKIP as int, bytes.len() as int))
    } else {
        x
    }
}

/// The digit of a number below ten.
pub open spec fn digit(d: nat) -> char {
    seq!['0', '1', '2', '3', '4', '5', '6', '7', '8', '9'][d as int]
}

/// A number in decimal digits.
pub open spec fn decimal(v: nat) -> Seq<char>
    decreases v,
{
    if v < 10 {
        seq![digit(v)]
    } else {
        decimal(v / 10).push(digit(v % 10))
    }
}

/// The line that names the device: source, arrow, target.
pub open spec fn spec_device_line(source: Seq<char>, target: Seq<char>) -> Seq<char> {
    spec_short(source) + " -> "@ + spec_short(target)
}

/// The line that counts the tries.
pub open spec fn spec_tries_line(max_try: u32, tried: u32) -> Seq<char> {
    if max_try == 0 {
        decimal(tried as nat) + " tries"@
    } else {
        decimal(tried as nat) + "/"@ + decimal(max_try as nat) + " chances used"@
    }
}

/// Shortens a name for the screen.
pub fn short(x: &str) -> (s: String)
    requires
        encode_utf8(x@).len() > SHORT_LIMIT ==> is_char_boundary(
            encode_utf8(x@),
            SHORT_SKIP as int,
        ),
    ensures
        s@ == spec_short(x@),
{
    if x.as_bytes().len() > SHORT_LIMIT {
        let (_, tail) = x.split_at(SHORT_SKIP);
        proof {
            let bytes = encode_utf8(x@);
            assert(encode_utf8(tail@) == bytes.subrange(SHORT_SKIP as int, bytes.len() as int));
            encode_utf8_decode_utf8(tail@);
        }
        let mut s = "...".to_owned();
        s.append(tail);
        s
    } else {
        x.to_owned()
    }
}

/// Appends the decimal digits of `v`.
fn push_decimal(v: u32, out: &mut Vec<char>)
    ensures
        final(out)@ == old(out)@ + decimal(v as nat),
    decreases v,
{
    if v >= 10 {
        push_decimal(v / 10, out);
    }
    let table: [char; 10] = ['0', '1', '2', '3', '4', '5', '6', '7', '8', '9'];
    assert(table@[(v % 10) as int] == digit((v % 10) as nat));
    out.push(table[(v % 10) as usize]);
    assert(out@ =~= old(out)@ + decimal(v as nat));
}

/// Writes a number in decimal digits.
pub fn decimal_string(v: u32) -> (s: String)
    ensures
        s@ == decimal(v as nat),
{
    let mut chars: Vec<char> = Vec::new();
    push_decimal(v, &mut chars);
    assert(chars@ =~= decimal(v as nat));
    string_of(&chars)
}

impl Executor {
    /// The configuration that was loaded.
    pub closed spec fn spec_cfg(&self) -> Cfg {
        self.cfg
    }

    /// Name of the source device.
    pub closed spec fn spec_source_name(&self) -> Seq<char> {
        self.source_name@
    }

    /// Name of the target mapping.
    pub closed spec fn spec_target_name(&self) -> Seq<char> {
        self.target_name@
    }

    /// Tries allowed; zero for no limit.
    pub closed spec fn spec_max_try(&self) -> u32 {
        self.max_try
    }

    /// Tries made so far.
    pub closed spec fn spec_tried(&self) -> u32 {
        self.tried
    }

    /// What the screen knows, from a loaded configuration and from what the
    /// boot environment says of the target's name, the source's name, the
    /// tries allowed and the tries made; `None` for what it does not say.
    pub fn new(
        cfg: Cfg,
        name: Option<String>,
        source: Option<String>,
        tries: Option<String>,
        tried: Option<String>,
    ) -> (executor: Executor)
        ensures
            executor.spec_cfg() == cfg,
            executor.spec_target_name() == name_or_unknown(name),
            executor.spec_source_name() == name_or_unknown(source),
            executor.spec_max_try() == tries_allowed(tries),
            executor.spec_tried() == tries_made(tried),
    {
        let target_name = match name {
            Some(n) => n,
            None => "UNKNOWN".to_owned(),
        };
        let source_name = match source {
            Some(n) => n,
            None => "UNKNOWN".to_owned(),
        };
        let max_try = match tries {
            None => DEFAULT_TRIES,
            Some(t) => match parse_u32(t.as_str()) {
                Some(v) => v,
                None => 0,
            },
        };
        let tried = match tried {
            None => 0,
            Some(t) => match parse_u32(t.as_str()) {
                Some(v) => v,
                None => 0,
            },
        };
        Executor { cfg, source_name, target_name, max_try, tried }
    }

    /// The configuration that was loaded.
    pub fn cfg(&self) -> (cfg: &Cfg)
        ensures
            *cfg == self.spec_cfg(),
    {
        &self.cfg
    }

    /// Whether another try is allowed.
    pub fn may_try(&self) -> (ok: bool)
        ensures
            ok == (self.spec_max_try() == 0 || self.spec_tried() < self.spec_max_try()),
    {
        self.max_try == 0 || self.tried < self.max_try
    }

    /// Whether both names can be shortened: a name longer than 13 bytes
    /// must have a character start at byte 10.
    pub open spec fn showable(&self) -> bool {
        &&& encode_utf8(self.spec_source_name()).len() > SHORT_LIMIT ==> is_char_boundary(
            encode_utf8(self.spec_source_name()),
            SHORT_SKIP as int,
        )
        &&& encode_utf8(self.spec_target_name()).len() > SHORT_LIMIT ==> is_char_boundary(
            encode_utf8(self.spec_target_name()),
            SHORT_SKIP as int,
        )
    }

    /// Whether both names can be shortened.
    pub fn can_show(&self) -> (ok: bool)
        ensures
            ok == self.showable(),
    {
        let source = self.source_name.as_str();
        let target = self.target_name.as_str();
        (source.as_bytes().len() <= SHORT_LIMIT || source.is_char_boundary(SHORT_SKIP)) && (
        target.as_bytes().len() <= SHORT_LIMIT || target.is_char_boundary(SHORT_SKIP))
    }

    /// The line that names the device.
    pub fn device_line(&self) -> (line: String)
        requires
            self.showable(),
        ensures
            line@ == spec_device_line(self.spec_source_name(), self.spec_target_name()),
    {
        let mut line = short(self.source_name.as_str());
        line.append(" -> ");
        line.append(short(self.target_name.as_str()).as_str());
        line
    }

    /// The line that counts the tries.
    pub fn tries_line(&self) -> (line: String)
        ensures
            line@ == spec_tries_line(self.spec_max_try(), self.spec_tried()),
    {
        let mut line = decimal_string(self.tried);
        if self.max_try == 0 {
            line.append(" tries");
        } else {
            line.append("/");
            line.append(decimal_string(self.max_try).as_str());
            line.append(" chances used");
        }
        line
    }
}

} // verus!
