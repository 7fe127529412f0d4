//! The signals that `kill` accepts, by name or number.

use vstd::prelude::*;

use crate::cli::default_kill_signal;
use crate::text::{digit_char, int_decimal, nat_decimal, owned, same_text};

verus! {

/// A signal that the runtime sends to a container.
#[derive(Clone, Copy, PartialEq, Eq, Structural, Debug)]
pub enum Signal {
    Term,
    Kill,
    Int,
}

/// The signal that an upper-case name or number stands for: `SIGTERM`,
/// `TERM` or `15`; `SIGKILL`, `KILL` or `9`; `SIGINT`, `INT` or `2`.
pub open spec fn signal_named(upper: Seq<char>) -> Option<Signal> {
    if upper == "SIGTERM"@ || upper == "TERM"@ || upper == "15"@ {
        Some(Signal::Term)
    } else if upper == "SIGKILL"@ || upper == "KILL"@ || upper == "9"@ {
        Some(Signal::Kill)
    } else if upper == "SIGINT"@ || upper == "INT"@ || upper == "2"@ {
        Some(Signal::Int)
    } else {
        None
    }
}

/// What `str::to_uppercase` returns for a string: its Unicode upper-case
/// equivalent, which can be longer than the string itself.
pub uninterp spec fn uppercase(s: Seq<char>) -> Seq<char>;

/// Whether every character of `s` is ASCII.
pub open spec fn is_ascii_text(s: Seq<char>) -> bool {
    forall|i: int| 0 <= i < s.len() ==> (#[trigger] s[i] as int) < 128
}

/// The upper case of an ASCII character: `a`..`z` become `A`..`Z`, every
/// other character stays.
pub open spec fn ascii_upper_char(c: char) -> char {
    if 'a' <= c && c <= 'z' {
        ((c as int) - 32) as char
    } else {
        c
    }
}

/// The upper case of ASCII text, character by character.
pub open spec fn ascii_uppercase(s: Seq<char>) -> Seq<char> {
    Seq::new(s.len(), |i: int| ascii_upper_char(s[i]))
}

/// Calls `str::to_uppercase`.
///
/// The result is named: it is the same for the same string. Of the Unicode
/// case mapping only the ASCII part is stated: in the Unicode Character
/// Database, `a`..`z` map one to one to `A`..`Z` and no other ASCII character
/// has an upper-case mapping, so ASCII text comes back with its letters in
/// upper case and nothing else changed. The mapping of other characters is
/// not stated.
#[verifier::external_body]
fn to_uppercase(s: &str) -> (r: String)
    ensures
        r@ == uppercase(s@),
        is_ascii_text(s@) ==> r@ == ascii_uppercase(s@),
{
    s.to_uppercase()
}

/// The nine words `kill` recognises: the names and numbers of SIGTERM,
/// SIGKILL and SIGINT.
pub open spec fn signal_words() -> Seq<Seq<char>> {
    seq!["SIGTERM"@, "TERM"@, "15"@, "SIGKILL"@, "KILL"@, "9"@, "SIGINT"@, "INT"@, "2"@]
}

/// Only the nine words stand for a signal, and each stands for its own:
/// `SIGTERM`, `TERM` and `15` for SIGTERM; `SIGKILL`, `KILL` and `9` for
/// SIGKILL; `SIGINT`, `INT` and `2` for SIGINT. Every other text stands for
/// none.
pub proof fn lemma_signal_words(u: Seq<char>)
    ensures
        signal_named(u) is Some <==> signal_words().contains(u),
        signal_named(u) == Some(Signal::Term) <==> (u == "SIGTERM"@ || u == "TERM"@ || u == "15"@),
        signal_named(u) == Some(Signal::Kill) <==> (u == "SIGKILL"@ || u == "KILL"@ || u == "9"@),
        signal_named(u) == Some(Signal::Int) <==> (u == "SIGINT"@ || u == "INT"@ || u == "2"@),
{
    let w = signal_words();
    lemma_signal_names_round_trip(Signal::Term);
    lemma_signal_names_round_trip(Signal::Kill);
    lemma_signal_names_round_trip(Signal::Int);
    reveal_strlit("SIGTERM");
    reveal_strlit("TERM");
    reveal_strlit("15");
    reveal_strlit("SIGKILL");
    reveal_strlit("KILL");
    reveal_strlit("9");
    reveal_strlit("SIGINT");
    reveal_strlit("INT");
    reveal_strlit("2");
    assert("TERM"@[0] != "KILL"@[0] && "TERM"@[0] != "SIGKILL"@[0] && "TERM"@[0] != "SIGINT"@[0]);
    assert("TERM"@[0] != "INT"@[0] && "KILL"@[0] != "INT"@[0] && "KILL"@[0] != "SIGINT"@[0]);
    assert("15"@[0] != "9"@[0] && "15"@[0] != "2"@[0]);
    if signal_named(u) is Some {
        if u == "SIGTERM"@ { assert(w[0] == u); }
        else if u == "TERM"@ { assert(w[1] == u); }
        else if u == "15"@ { assert(w[2] == u); }
        else if u == "SIGKILL"@ { assert(w[3] == u); }
        else if u == "KILL"@ { assert(w[4] == u); }
        else if u == "9"@ { assert(w[5] == u); }
        else if u == "SIGINT"@ { assert(w[6] == u); }
        else if u == "INT"@ { assert(w[7] == u); }
        else { assert(w[8] == u); }
    }
    if w.contains(u) {
        let k = choose|k: int| 0 <= k < w.len() && w[k] == u;
        assert(signal_named(u) is Some);
    }
}

/// The signal an upper-case name or number stands for, if any.
pub fn signal_from_name(upper: &str) -> (r: Option<Signal>)
    ensures
        r == signal_named(upper@),
        r is Some <==> signal_words().contains(upper@),
        r == Some(Signal::Term) <==> (upper@ == "SIGTERM"@ || upper@ == "TERM"@ || upper@
            == "15"@),
        r == Some(Signal::Kill) <==> (upper@ == "SIGKILL"@ || upper@ == "KILL"@ || upper@
            == "9"@),
        r == Some(Signal::Int) <==> (upper@ == "SIGINT"@ || upper@ == "INT"@ || upper@ == "2"@),
{
    proof {
        lemma_signal_words(upper@);
    }
    if same_text(upper, "SIGTERM") || same_text(upper, "TERM") || same_text(upper, "15") {
        Some(Signal::Term)
    } else if same_text(upper, "SIGKILL") || same_text(upper, "KILL") || same_text(upper, "9") {
        Some(Signal::Kill)
    } else if same_text(upper, "SIGINT") || same_text(upper, "INT") || same_text(upper, "2") {
        Some(Signal::Int)
    } else {
        None
    }
}

/// The signal a name or number stands for, in any case.
pub fn parse_signal(s: &str) -> (r: Option<Signal>)
    ensures
        r == signal_named(uppercase(s@)),
        is_ascii_text(s@) ==> r == signal_named(ascii_uppercase(s@)),
{
    let upper = to_uppercase(s);
    signal_from_name(upper.as_str())
}

/// The signal to send for a requested name: the one it stands for, or
/// `SIGTERM` when it stands for none. The flag tells whether the name was
/// recognised.
pub fn choose_signal(s: &str) -> (r: (Signal, bool))
    ensures
        r.1 == signal_named(uppercase(s@)) is Some,
        r.0 == match signal_named(uppercase(s@)) {
            Some(sig) => sig,
            None => Signal::Term,
        },
        is_ascii_text(s@) ==> r.1 == signal_named(ascii_uppercase(s@)) is Some,
        is_ascii_text(s@) ==> r.0 == match signal_named(ascii_uppercase(s@)) {
            Some(sig) => sig,
            None => Signal::Term,
        },
        r.1 <==> signal_words().contains(uppercase(s@)),
        !signal_words().contains(uppercase(s@)) ==> r == (Signal::Term, false),
        (is_ascii_text(s@) && !signal_words().contains(ascii_uppercase(s@))) ==> r == (
            Signal::Term,
            false,
        ),
{
    proof {
        lemma_signal_words(uppercase(s@));
        lemma_signal_words(ascii_uppercase(s@));
    }
    match parse_signal(s) {
        Some(sig) => (sig, true),
        None => (Signal::Term, false),
    }
}

impl Signal {
    /// The signal's number on Linux.
    pub open spec fn spec_number(self) -> i32 {
        match self {
            Signal::Term => 15,
            Signal::Kill => 9,
            Signal::Int => 2,
        }
    }

    /// The signal's name.
    pub open spec fn spec_name(self) -> Seq<char> {
        match self {
            Signal::Term => "SIGTERM"@,
            Signal::Kill => "SIGKILL"@,
            Signal::Int => "SIGINT"@,
        }
    }

    /// The signal's number on Linux.
    pub fn number(&self) -> (n: i32)
        ensures
            n == self.spec_number(),
    {
        match self {
            Signal::Term => 15,
            Signal::Kill => 9,
            Signal::Int => 2,
        }
    }

    /// The signal's name, as messages show it.
    pub fn name(&self) -> (s: String)
        ensures
            s@ == self.spec_name(),
    {
        let lit = match self {
            Signal::Term => "SIGTERM",
            Signal::Kill => "SIGKILL",
            Signal::Int => "SIGINT",
        };
        owned(lit)
    }
}

/// The signal `kill` sends by default is known as `SIGKILL` in any case.
pub proof fn lemma_default_kill_signal()
    ensures
        is_ascii_text(default_kill_signal()),
        signal_named(ascii_uppercase(default_kill_signal())) == Some(Signal::Kill),
{
    reveal_strlit("SIGKILL");
    assert(ascii_uppercase("SIGKILL"@) == "SIGKILL"@);
    lemma_signal_names_round_trip(Signal::Kill);
}

/// Every signal is known under its own name and under its number.
pub proof fn lemma_signal_names_round_trip(sig: Signal)
    ensures
        signal_named(sig.spec_name()) == Some(sig),
        signal_named(int_decimal(sig.spec_number() as int)) == Some(sig),
{
    reveal_strlit("SIGTERM");
    reveal_strlit("TERM");
    reveal_strlit("15");
    reveal_strlit("SIGKILL");
    reveal_strlit("KILL");
    reveal_strlit("9");
    reveal_strlit("SIGINT");
    reveal_strlit("INT");
    reveal_strlit("2");
    assert(digit_char(1) == '1');
    assert(digit_char(5) == '5');
    assert(digit_char(9) == '9');
    assert(digit_char(2) == '2');
    assert(nat_decimal(15) == nat_decimal(1).push(digit_char(5)));
    assert(int_decimal(15) == "15"@);
    assert(int_decimal(9) == "9"@);
    assert(int_decimal(2) == "2"@);
    assert("SIGTERM"@[3] == 'T');
    assert("SIGKILL"@[3] == 'K');
    assert("SIGINT"@[3] == 'I');
    assert("SIGKILL"@ != "SIGTERM"@);
    assert("SIGINT"@ != "SIGTERM"@);
    assert("SIGINT"@ != "SIGKILL"@);
    assert("SIGKILL"@ != "TERM"@);
    assert("SIGINT"@ != "TERM"@);
    assert("SIGINT"@ != "KILL"@);
    assert("2"@[0] != "9"@[0]);
}

} // verus!
