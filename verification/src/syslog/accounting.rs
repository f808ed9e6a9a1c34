//! The record that tells the log service how many records it has missed.

use vstd::prelude::*;
use vstd::string::*;

verus! {

/// `slog::Level`, the severity of a `slog` record. Its six variants are read
/// as `slog` declares them: `Critical`, `Error`, `Warning`, `Info`, `Debug` and
/// `Trace`.
#[verifier::external_type_specification]
pub struct ExLevel(slog::Level);

/// The character that stands for the digit `d`, for `d` below ten.
pub open spec fn digit_char(d: nat) -> char {
    if d == 0 {
        '0'
    } else if d == 1 {
        '1'
    } else if d == 2 {
        '2'
    } else if d == 3 {
        '3'
    } else if d == 4 {
        '4'
    } else if d == 5 {
        '5'
    } else if d == 6 {
        '6'
    } else if d == 7 {
        '7'
    } else if d == 8 {
        '8'
    } else {
        '9'
    }
}

/// `n` written in base ten, without leading zeros.
pub open spec fn decimal(n: nat) -> Seq<char>
    decreases n,
{
    if n < 10 {
        seq![digit_char(n)]
    } else {
        decimal(n / 10).push(digit_char(n % 10))
    }
}

/// The text of the accounting record for `count` dropped records.
pub open spec fn accounting_message(count: nat) -> Seq<char> {
    "disconnected from log service; "@ + decimal(count) + " messages dropped"@
}

/// The logger name under which accounting records are written.
pub open spec fn accounting_tag() -> Seq<char> {
    "sloggers::syslog"@
}

fn digit(d: usize) -> (text: &'static str)
    requires
        d < 10,
    ensures
        text@ == seq![digit_char(d as nat)],
{
    proof {
        reveal_strlit("0");
        reveal_strlit("1");
        reveal_strlit("2");
        reveal_strlit("3");
        reveal_strlit("4");
        reveal_strlit("5");
        reveal_strlit("6");
        reveal_strlit("7");
        reveal_strlit("8");
        reveal_strlit("9");
    }
    let text: &'static str = if d == 0 {
        "0"
    } else if d == 1 {
        "1"
    } else if d == 2 {
        "2"
    } else if d == 3 {
        "3"
    } else if d == 4 {
        "4"
    } else if d == 5 {
        "5"
    } else if d == 6 {
        "6"
    } else if d == 7 {
        "7"
    } else if d == 8 {
        "8"
    } else {
        "9"
    };
    assert(text@ =~= seq![digit_char(d as nat)]);
    text
}

/// Writes `n` in base ten.
pub fn to_decimal(n: usize) -> (text: String)
    ensures
        text@ == decimal(n as nat),
    decreases n,
{
    if n < 10 {
        String::from_str(digit(n))
    } else {
        let mut text = to_decimal(n / 10);
        text.append(digit(n % 10));
        text
    }
}

/// The synthetic record that is sent through a new sink before anything else,
/// when records were dropped while no sink was in use.
#[derive(Debug)]
pub struct AccountingRecord {
    /// The severity of the record: always `Error`.
    pub level: slog::Level,
    /// The name of the logger that the record is written under.
    pub tag: &'static str,
    /// The text of the record, which names the count.
    pub message: String,
    /// How many records were dropped: the record's one structured field.
    pub count: usize,
}

impl AccountingRecord {
    /// The key under which `count` is written among the record's structured fields.
    pub const COUNT_KEY: &'static str = "count";

    /// Whether this is the accounting record for `count` dropped records: an
    /// error, written under the tag of this library, whose text and whose
    /// structured field both give `count`.
    pub open spec fn accounts_for(self, count: nat) -> bool {
        &&& self.level == slog::Level::Error
        &&& self.tag@ == accounting_tag()
        &&& self.message@ == accounting_message(count)
        &&& self.count == count
    }

    /// Makes the accounting record for `count` dropped records.
    pub fn new(count: usize) -> (record: AccountingRecord)
        ensures
            record.accounts_for(count as nat),
    {
        let mut message = String::from_str("disconnected from log service; ");
        let digits = to_decimal(count);
        message.append(digits.as_str());
        message.append(" messages dropped");
        AccountingRecord { level: slog::Level::Error, tag: "sloggers::syslog", message, count }
    }
}

} // verus!
