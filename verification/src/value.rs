//! Normalized attribute values: a canonical present/absent payload.

use vstd::prelude::*;
use vstd::string::StringExecFns;

verus! {

/// A normalized optional string payload.
///
/// Invariant maintained by the constructors: boolean `false`, numeric `0` and
/// the empty string all collapse to the single canonical absent value
/// (`AttributeValue(None)`). Absence means "not set / revert to default",
/// never "set to a falsy value".
#[derive(Debug, Clone, Eq, Hash)]
pub struct AttributeValue(pub Option<String>);

impl View for AttributeValue {
    type V = Option<Seq<char>>;

    open spec fn view(&self) -> Option<Seq<char>> {
        match self.0 {
            Option::None => Option::None,
            Option::Some(s) => Option::Some(s@),
        }
    }
}

impl PartialEq for AttributeValue {
    /// Structural equality over the wrapped optional string, so values
    /// normalized from different raw types (e.g. `false` and `0`) compare
    /// equal.
    fn eq(&self, other: &AttributeValue) -> bool {
        match (&self.0, &other.0) {
            (Option::None, Option::None) => true,
            (Option::Some(a), Option::Some(b)) => *a == *b,
            _ => false,
        }
    }
}

impl vstd::std_specs::cmp::PartialEqSpecImpl for AttributeValue {
    open spec fn obeys_eq_spec() -> bool {
        true
    }

    open spec fn eq_spec(&self, other: &AttributeValue) -> bool {
        self@ == other@
    }
}

/// The normalized form of a boolean input.
pub open spec fn spec_normalize_bool(b: bool) -> Option<Seq<char>> {
    if b {
        Option::Some("true"@)
    } else {
        Option::None
    }
}

/// The normalized form of an unsigned integer input.
pub open spec fn spec_normalize_uint(n: nat) -> Option<Seq<char>> {
    if n > 0 {
        Option::Some(spec_decimal(n))
    } else {
        Option::None
    }
}

/// The normalized form of a string input.
pub open spec fn spec_normalize_string(s: Seq<char>) -> Option<Seq<char>> {
    if s.len() == 0 {
        Option::None
    } else {
        Option::Some(s)
    }
}

/// The digit character for a value below ten.
pub open spec fn spec_digit(d: nat) -> char {
    if d == 0 {
        '0'
    } else if d == 1 {
        '1'
    } else if d == 2 {
        '2'
    } else if d == 3 {
        '3'
    } else if d == 4 {
        '4'
    } else if d == 5 {
        '5'
    } else if d == 6 {
        '6'
    } else if d == 7 {
        '7'
    } else if d == 8 {
        '8'
    } else {
        '9'
    }
}

/// The decimal representation of `n`: most significant digit first, no
/// leading zero except for `n == 0` itself.
pub open spec fn spec_decimal(n: nat) -> Seq<char>
    decreases n,
{
    if n < 10 {
        seq![spec_digit(n)]
    } else {
        spec_decimal(n / 10).push(spec_digit(n % 10))
    }
}

/// Every falsy raw input — boolean `false`, numeric `0`, the empty string —
/// normalizes to the one canonical absent value, and every truthy input to
/// its canonical present string, never the raw input verbatim.
pub proof fn lemma_canonical_absence()
    ensures
        spec_normalize_bool(false) is None,
        spec_normalize_uint(0) is None,
        spec_normalize_string(Seq::<char>::empty()) is None,
        spec_normalize_bool(true) == Option::Some("true"@),
        forall|n: nat|
            n > 0 ==> (#[trigger] spec_normalize_uint(n)) == Option::Some(spec_decimal(n)),
        forall|s: Seq<char>|
            s.len() > 0 ==> (#[trigger] spec_normalize_string(s)) == Option::Some(s),
{
}

/// The one-character string for a digit below ten.
fn digit_str(d: usize) -> (r: &'static str)
    requires
        d < 10,
    ensures
        r@ =~= seq![spec_digit(d as nat)],
{
    proof {
        reveal_strlit("0");
        reveal_strlit("1");
        reveal_strlit("2");
        reveal_strlit("3");
        reveal_strlit("4");
        reveal_strlit("5");
        reveal_strlit("6");
        reveal_strlit("7");
        reveal_strlit("8");
        reveal_strlit("9");
    }
    match d {
        0 => "0",
        1 => "1",
        2 => "2",
        3 => "3",
        4 => "4",
        5 => "5",
        6 => "6",
        7 => "7",
        8 => "8",
        _ => "9",
    }
}

/// Appends the decimal representation of `n` to `s`.
fn push_decimal(s: &mut String, n: usize)
    ensures
        final(s)@ == old(s)@ + spec_decimal(n as nat),
    decreases n,
{
    if n >= 10 {
        push_decimal(s, n / 10);
    }
    s.append(digit_str(n % 10));
    proof {
        assert(s@ =~= old(s)@ + spec_decimal(n as nat));
    }
}

/// The decimal string of `n`.
fn decimal_string(n: usize) -> (r: String)
    ensures
        r@ == spec_decimal(n as nat),
{
    let mut s = String::new();
    push_decimal(&mut s, n);
    proof {
        assert(s@ =~= spec_decimal(n as nat));
    }
    s
}

impl AttributeValue {
    /// Normalizes a boolean: `false` is absent, `true` is present("true").
    pub fn normalize_bool(b: bool) -> (v: AttributeValue)
        ensures
            v@ == spec_normalize_bool(b),
    {
        if b {
            AttributeValue(Option::Some("true".to_owned()))
        } else {
            AttributeValue(Option::None)
        }
    }

    /// Normalizes an unsigned integer: `0` is absent, a positive `n` is
    /// present(decimal string of `n`).
    pub fn normalize_uint(n: usize) -> (v: AttributeValue)
        ensures
            v@ == spec_normalize_uint(n as nat),
    {
        if n > 0 {
            AttributeValue(Option::Some(decimal_string(n)))
        } else {
            AttributeValue(Option::None)
        }
    }

    /// Normalizes a string: the empty string is absent, a non-empty string is
    /// present as a copy.
    pub fn normalize_string(s: &str) -> (v: AttributeValue)
        ensures
            v@ == spec_normalize_string(s@),
    {
        if s.is_empty() {
            AttributeValue(Option::None)
        } else {
            AttributeValue(Option::Some(s.to_owned()))
        }
    }

    /// Whether the value is present ("set") rather than absent ("cleared").
    pub fn is_present(&self) -> (r: bool)
        ensures
            r == (self@ is Some),
    {
        match &self.0 {
            Option::Some(_) => true,
            Option::None => false,
        }
    }

    /// The payload string, if the value is present.
    pub fn as_string(&self) -> (r: Option<&str>)
        ensures
            match r {
                Option::Some(s) => self@ == Option::Some(s@),
                Option::None => self@ is None,
            },
    {
        match &self.0 {
            Option::Some(s) => Option::Some(s.as_str()),
            Option::None => Option::None,
        }
    }
}

} // verus!
