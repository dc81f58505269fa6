//! The recovery advisory: the text shown to the operator once local storage
//! has been reported as corrupted, and the log record that carries it.

use vstd::prelude::*;
use vstd::string::*;

verus! {

/// Severity under which a record is handed to the logger.
#[derive(Clone, Copy, Debug, PartialEq, Eq, Structural)]
pub enum Severity {
    Info,
    Error,
}

/// One message for the logger: what to say and how loudly.
#[derive(Clone, Debug)]
pub struct LogRecord {
    pub severity: Severity,
    pub text: String,
}

/// The character that writes the digit `d` (meaningful for `d < 10`).
pub open spec fn digit_char(d: nat) -> char {
    if d == 0 {
        '0'
    } else if d == 1 {
        '1'
    } else if d == 2 {
        '2'
    } else if d == 3 {
        '3'
    } else if d == 4 {
        '4'
    } else if d == 5 {
        '5'
    } else if d == 6 {
        '6'
    } else if d == 7 {
        '7'
    } else if d == 8 {
        '8'
    } else {
        '9'
    }
}

/// Decimal notation of `n`, most significant digit first, without padding.
pub open spec fn decimal(n: nat) -> Seq<char>
    decreases n,
{
    if n < 10 {
        seq![digit_char(n)]
    } else {
        decimal(n / 10).push(digit_char(n % 10))
    }
}

/// Opening of the advisory, up to and including the reset command.
pub open spec fn advisory_head() -> Seq<char> {
    "Storage corruption detected! Run `snarkos clean"@
}

/// Flag that precedes the instance identifier in the reset command.
pub open spec fn instance_flag() -> Seq<char> {
    " --dev "@
}

/// Close of the advisory.
pub open spec fn advisory_tail() -> Seq<char> {
    "` to reset storage"@
}

/// The only part of the advisory that depends on the instance: nothing for
/// the default storage, the flag and the identifier otherwise.
pub open spec fn instance_fragment(dev: Option<u16>) -> Seq<char> {
    match dev {
        None => Seq::empty(),
        Some(id) => instance_flag() + decimal(id as nat),
    }
}

/// The full advisory for the given instance.
pub open spec fn recovery_text(dev: Option<u16>) -> Seq<char> {
    advisory_head() + instance_fragment(dev) + advisory_tail()
}

fn digit_str(d: u16) -> (s: &'static str)
    requires
        d < 10,
    ensures
        s@ == seq![digit_char(d as nat)],
{
    proof {
        reveal_strlit("0");
        reveal_strlit("1");
        reveal_strlit("2");
        reveal_strlit("3");
        reveal_strlit("4");
        reveal_strlit("5");
        reveal_strlit("6");
        reveal_strlit("7");
        reveal_strlit("8");
        reveal_strlit("9");
    }
    let s: &'static str = if d == 0 {
        "0"
    } else if d == 1 {
        "1"
    } else if d == 2 {
        "2"
    } else if d == 3 {
        "3"
    } else if d == 4 {
        "4"
    } else if d == 5 {
        "5"
    } else if d == 6 {
        "6"
    } else if d == 7 {
        "7"
    } else if d == 8 {
        "8"
    } else {
        "9"
    };
    assert(s@ =~= seq![digit_char(d as nat)]);
    s
}

/// Writes `n` in decimal.
pub fn decimal_string(n: u16) -> (s: String)
    ensures
        s@ == decimal(n as nat),
    decreases n,
{
    if n < 10 {
        String::from_str(digit_str(n))
    } else {
        let mut s = decimal_string(n / 10);
        s.append(digit_str(n % 10));
        assert(s@ =~= decimal(n as nat));
        s
    }
}

/// Renders the advisory for the instance `dev`; `None` is the default storage.
pub fn recovery_message(dev: Option<u16>) -> (text: String)
    ensures
        text@ == recovery_text(dev),
{
    let mut text = String::from_str("Storage corruption detected! Run `snarkos clean");
    match dev {
        Some(id) => {
            text.append(" --dev ");
            let digits = decimal_string(id);
            text.append(digits.as_str());
        },
        None => {},
    }
    text.append("` to reset storage");
    assert(text@ =~= recovery_text(dev));
    text
}

/// The record to emit when storage corruption has been reported: the
/// advisory for `dev`, at error severity.
pub fn log_clean_error(dev: Option<u16>) -> (record: LogRecord)
    ensures
        record.severity == Severity::Error,
        record.text@ == recovery_text(dev),
{
    LogRecord { severity: Severity::Error, text: recovery_message(dev) }
}

/// Decimal notation is never empty and holds digits only.
pub proof fn lemma_decimal_is_digits(n: nat)
    ensures
        decimal(n).len() >= 1,
        forall|i: int| 0 <= i < decimal(n).len() ==> '0' <= #[trigger] decimal(n)[i] <= '9',
    decreases n,
{
    if n >= 10 {
        lemma_decimal_is_digits(n / 10);
    }
}

/// The advisory for a named instance is the default advisory with one
/// fragment inserted between its head and its tail, and that fragment is the
/// flag followed by the identifier in decimal. The two texts are never equal.
pub proof fn lemma_advisories_differ_in_fragment(id: u16)
    ensures
        recovery_text(None) == advisory_head() + advisory_tail(),
        recovery_text(Some(id)) == advisory_head() + (instance_flag() + decimal(id as nat))
            + advisory_tail(),
        recovery_text(Some(id)) != recovery_text(None),
{
    lemma_decimal_is_digits(id as nat);
    assert(advisory_head() + Seq::<char>::empty() =~= advisory_head());
    assert(recovery_text(Some(id)).len() > recovery_text(None).len());
}

} // verus!
