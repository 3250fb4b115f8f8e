use vstd::prelude::*;

verus! {

/// The bytes sent after each message.
#[derive(Clone, Copy, Debug, PartialEq, Eq, Structural)]
pub enum LineEnding {
    Empty,
    Lf,
    Cr,
    CrLf,
    LfCr,
}

impl LineEnding {
    pub open spec fn bytes(self) -> Seq<u8> {
        match self {
            LineEnding::Empty => seq![],
            LineEnding::Lf => seq![10u8],
            LineEnding::Cr => seq![13u8],
            LineEnding::CrLf => seq![13u8, 10u8],
            LineEnding::LfCr => seq![10u8, 13u8],
        }
    }

    pub fn as_bytes(&self) -> (r: Vec<u8>)
        ensures
            r@ == self.bytes(),
    {
        let mut r: Vec<u8> = Vec::new();
        match self {
            LineEnding::Empty => {},
            LineEnding::Lf => {
                r.push(10);
            },
            LineEnding::Cr => {
                r.push(13);
            },
            LineEnding::CrLf => {
                r.push(13);
                r.push(10);
            },
            LineEnding::LfCr => {
                r.push(10);
                r.push(13);
            },
        }
        assert(r@ =~= self.bytes());
        r
    }

    /// The line ending written with escapes, for display.
    pub fn display_text(&self) -> (r: &'static str)
        ensures
            r@ == match self {
                LineEnding::Empty => ""@,
                LineEnding::Lf => "\\n"@,
                LineEnding::Cr => "\\r"@,
                LineEnding::CrLf => "\\r\\n"@,
                LineEnding::LfCr => "\\n\\r"@,
            },
    {
        match self {
            LineEnding::Empty => "",
            LineEnding::Lf => "\\n",
            LineEnding::Cr => "\\r",
            LineEnding::CrLf => "\\r\\n",
            LineEnding::LfCr => "\\n\\r",
        }
    }

    /// The next choice, in the order empty, LF, CR, CR LF, LF CR, and round.
    pub open spec fn following(self) -> LineEnding {
        match self {
            LineEnding::Empty => LineEnding::Lf,
            LineEnding::Lf => LineEnding::Cr,
            LineEnding::Cr => LineEnding::CrLf,
            LineEnding::CrLf => LineEnding::LfCr,
            LineEnding::LfCr => LineEnding::Empty,
        }
    }

    /// The previous choice, in the same order.
    pub open spec fn preceding(self) -> LineEnding {
        match self {
            LineEnding::Empty => LineEnding::LfCr,
            LineEnding::Lf => LineEnding::Empty,
            LineEnding::Cr => LineEnding::Lf,
            LineEnding::CrLf => LineEnding::Cr,
            LineEnding::LfCr => LineEnding::CrLf,
        }
    }

    pub fn next(&self) -> (r: LineEnding)
        ensures
            r == self.following(),
    {
        match self {
            LineEnding::Empty => LineEnding::Lf,
            LineEnding::Lf => LineEnding::Cr,
            LineEnding::Cr => LineEnding::CrLf,
            LineEnding::CrLf => LineEnding::LfCr,
            LineEnding::LfCr => LineEnding::Empty,
        }
    }

    pub fn prev(&self) -> (r: LineEnding)
        ensures
            r == self.preceding(),
            r.following() == *self,
    {
        match self {
            LineEnding::Empty => LineEnding::LfCr,
            LineEnding::Lf => LineEnding::Empty,
            LineEnding::Cr => LineEnding::Lf,
            LineEnding::CrLf => LineEnding::Cr,
            LineEnding::LfCr => LineEnding::CrLf,
        }
    }
}

/// Whether sent messages are copied into the log.
#[derive(Clone, Copy, Debug, PartialEq, Eq, Structural)]
pub enum EchoMode {
    On,
    Off,
}

#[derive(Clone, Copy, Debug, PartialEq, Eq, Structural)]
pub enum Parity {
    NoParity,
    Odd,
    Even,
}

#[derive(Clone, Copy, Debug, PartialEq, Eq, Structural)]
pub enum StopBits {
    One,
    Two,
}

/// The settings of the session.
#[derive(Clone, Copy, Debug, PartialEq, Eq, Structural)]
pub struct AppConfig {
    /// Chosen on its own screen; `None` until then.
    pub baud_rate: Option<u32>,
    pub end_of_line: LineEnding,
    pub data_bits: u8,
    pub parity: Parity,
    pub stop_bits: StopBits,
    pub echo_mode: EchoMode,
}

impl AppConfig {
    /// No baud rate yet, LF after each message, 8N1, echo on.
    pub open spec fn default_spec() -> AppConfig {
        AppConfig {
            baud_rate: None,
            end_of_line: LineEnding::Lf,
            data_bits: 8,
            parity: Parity::NoParity,
            stop_bits: StopBits::One,
            echo_mode: EchoMode::On,
        }
    }

    pub fn default() -> (r: AppConfig)
        ensures
            r == Self::default_spec(),
    {
        AppConfig {
            baud_rate: None,
            end_of_line: LineEnding::Lf,
            data_bits: 8,
            parity: Parity::NoParity,
            stop_bits: StopBits::One,
            echo_mode: EchoMode::On,
        }
    }
}

pub open spec fn is_digit(c: char) -> bool {
    '0' <= c <= '9'
}

/// The number that a string of decimal digits writes.
pub open spec fn decimal_value(s: Seq<char>) -> nat
    decreases s.len(),
{
    if s.len() == 0 {
        0
    } else {
        decimal_value(s.drop_last()) * 10 + (s.last() as u32 - '0' as u32) as nat
    }
}

/// A baud rate written in decimal digits: `None` when the text is empty,
/// holds anything but digits, or names a number past `u32::MAX`.
pub open spec fn parse_baud_rate_spec(s: Seq<char>) -> Option<u32> {
    if s.len() > 0 && (forall|i: int| 0 <= i < s.len() ==> is_digit(#[trigger] s[i]))
        && decimal_value(s) <= u32::MAX {
        Some(decimal_value(s) as u32)
    } else {
        None
    }
}

pub fn parse_baud_rate(s: &[char]) -> (r: Option<u32>)
    ensures
        r == parse_baud_rate_spec(s@),
{
    if s.len() == 0 {
        return None;
    }
    let mut value: u32 = 0;
    let mut i: usize = 0;
    while i < s.len()
        invariant
            i <= s@.len(),
            forall|k: int| 0 <= k < i ==> is_digit(#[trigger] s@[k]),
            value == decimal_value(s@.subrange(0, i as int)),
        decreases s@.len() - i,
    {
        let c = s[i];
        assert(s@.subrange(0, i + 1).drop_last() =~= s@.subrange(0, i as int));
        if c < '0' || c > '9' {
            assert(!is_digit(s@[i as int]));
            return None;
        }
        let digit = (c as u32) - ('0' as u32);
        match value.checked_mul(10) {
            Some(tens) => match tens.checked_add(digit) {
                Some(next) => {
                    value = next;
                },
                None => {
                    proof {
                        if forall|k: int| 0 <= k < s@.len() ==> is_digit(#[trigger] s@[k]) {
                            lemma_decimal_value_grows(s@, (i + 1) as nat);
                        }
                    }
                    return None;
                },
            },
            None => {
                proof {
                    if forall|k: int| 0 <= k < s@.len() ==> is_digit(#[trigger] s@[k]) {
                        lemma_decimal_value_grows(s@, (i + 1) as nat);
                    }
                }
                return None;
            },
        }
        i = i + 1;
    }
    assert(s@.subrange(0, i as int) =~= s@);
    Some(value)
}

/// A prefix of digits names at most what the whole does.
proof fn lemma_decimal_value_grows(s: Seq<char>, n: nat)
    requires
        n <= s.len(),
        forall|i: int| 0 <= i < s.len() ==> is_digit(#[trigger] s[i]),
    ensures
        decimal_value(s.subrange(0, n as int)) <= decimal_value(s),
    decreases s.len() - n,
{
    if n < s.len() {
        lemma_decimal_value_grows(s, n + 1);
        assert(s.subrange(0, n + 1 as int).drop_last() =~= s.subrange(0, n as int));
    } else {
        assert(s.subrange(0, n as int) =~= s);
    }
}

} // verus!
