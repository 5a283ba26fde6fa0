//! The recognition task's side of a hand-off: turn the speech into a text and
//! deliver it to the result slot, exactly once.

use crate::slot::deliver;
use std::sync::mpsc::Sender;
use vstd::prelude::*;

verus! {

/// Bytes of speech that make one second.
pub const BYTES_PER_SECOND: usize = 16000;

/// The decimal digit for `d`.
pub open spec fn digit(d: nat) -> char {
    if d == 0 {
        '0'
    } else if d == 1 {
        '1'
    } else if d == 2 {
        '2'
    } else if d == 3 {
        '3'
    } else if d == 4 {
        '4'
    } else if d == 5 {
        '5'
    } else if d == 6 {
        '6'
    } else if d == 7 {
        '7'
    } else if d == 8 {
        '8'
    } else {
        '9'
    }
}

/// `n` in decimal digits, without leading zeros.
pub open spec fn decimal(n: nat) -> Seq<char>
    decreases n,
{
    if n < 10 {
        seq![digit(n)]
    } else {
        decimal(n / 10).push(digit(n % 10))
    }
}

/// The text for `data`: the empty text for no speech, else a report of how
/// many whole seconds of speech there were.
pub open spec fn transcript_of(data: Seq<u8>) -> Seq<char> {
    if data.len() == 0 {
        Seq::empty()
    } else {
        "Recognized "@ + decimal(data.len() / (BYTES_PER_SECOND as nat)) + " seconds."@
    }
}

/// The one-letter text of a decimal digit.
fn digit_text(d: usize) -> (text: &'static str)
    requires
        d < 10,
    ensures
        text@ == seq![digit(d as nat)],
{
    proof {
        reveal_strlit("0");
        reveal_strlit("1");
        reveal_strlit("2");
        reveal_strlit("3");
        reveal_strlit("4");
        reveal_strlit("5");
        reveal_strlit("6");
        reveal_strlit("7");
        reveal_strlit("8");
        reveal_strlit("9");
    }
    let text = if d == 0 {
        "0"
    } else if d == 1 {
        "1"
    } else if d == 2 {
        "2"
    } else if d == 3 {
        "3"
    } else if d == 4 {
        "4"
    } else if d == 5 {
        "5"
    } else if d == 6 {
        "6"
    } else if d == 7 {
        "7"
    } else if d == 8 {
        "8"
    } else {
        "9"
    };
    assert(text@ =~= seq![digit(d as nat)]);
    text
}

/// Writes `n` in decimal digits.
pub fn decimal_text(n: usize) -> (text: String)
    ensures
        text@ == decimal(n as nat),
{
    let mut text = String::from_str(digit_text(n % 10));
    let mut rest: usize = n / 10;
    while rest > 0
        invariant
            decimal(n as nat) == if rest > 0 {
                decimal(rest as nat) + text@
            } else {
                text@
            },
        decreases rest,
    {
        let ghost before = text@;
        let ghost higher = rest;
        text = String::from_str(digit_text(rest % 10)).concat(text.as_str());
        rest = rest / 10;
        assert(text@ == seq![digit((higher % 10) as nat)] + before);
        assert(decimal(higher as nat) + before =~= if rest > 0 {
            decimal(rest as nat) + text@
        } else {
            text@
        });
    }
    text
}

/// Turns speech into its text.
pub fn transcript(data: &[u8]) -> (text: String)
    ensures
        text@ == transcript_of(data@),
{
    if data.len() == 0 {
        return String::new();
    }
    let seconds: usize = data.len() / BYTES_PER_SECOND;
    let text = String::from_str("Recognized ").concat(decimal_text(seconds).as_str()).concat(
        " seconds.",
    );
    text
}

/// Does the work of a recognition task: turns `data` into its text and
/// hands that text, once, to the result slot through `tx`.
///
/// Whether the slot takes it is decided by the receiving end: where that is
/// gone the text is not delivered and comes back, for the task to note. That
/// is no fault of the frame path, which has its own answer to a slot that
/// will never be filled.
pub fn connect(data: Vec<u8>, tx: Sender<String>) -> (outcome: Result<(), String>)
    ensures
        outcome matches Err(undelivered) ==> undelivered@ == transcript_of(data@),
{
    let text = transcript(data.as_slice());
    deliver(&tx, text)
}

} // verus!
