//! The diagnostic record: an append-only log of pre-increment counter
//! values, kept for operator visibility only and never read back by the
//! service, together with the human-readable form of one record.

use vstd::prelude::*;

verus! {

/// Append-only diagnostic record of pre-increment counter values.
pub struct DiagnosticLog {
    entries: Vec<u32>,
}

impl View for DiagnosticLog {
    type V = Seq<u32>;

    closed spec fn view(&self) -> Seq<u32> {
        self.entries@
    }
}

impl DiagnosticLog {
    /// An empty log.
    pub fn new() -> (l: DiagnosticLog)
        ensures
            l@ == Seq::<u32>::empty(),
    {
        DiagnosticLog { entries: Vec::new() }
    }

    /// Appends one record.
    pub fn record(&mut self, value: u32)
        ensures
            final(self)@ == old(self)@.push(value),
    {
        self.entries.push(value);
    }

    /// The recorded pre-increment values, oldest first.
    pub fn entries(&self) -> (r: &Vec<u32>)
        ensures
            r@ == self@,
    {
        &self.entries
    }
}

/// The character of one decimal digit.
pub open spec fn digit_char(d: nat) -> char
    recommends
        d < 10,
{
    if d == 0 {
        '0'
    } else if d == 1 {
        '1'
    } else if d == 2 {
        '2'
    } else if d == 3 {
        '3'
    } else if d == 4 {
        '4'
    } else if d == 5 {
        '5'
    } else if d == 6 {
        '6'
    } else if d == 7 {
        '7'
    } else if d == 8 {
        '8'
    } else {
        '9'
    }
}

/// The decimal digits of `v`, most significant first, without leading zeros
/// (zero itself reads as one digit).
pub open spec fn decimal_digits(v: nat) -> Seq<char>
    decreases v,
{
    if v < 10 {
        seq![digit_char(v)]
    } else {
        decimal_digits(v / 10).push(digit_char(v % 10))
    }
}

/// The human-readable form of one diagnostic record.
pub open spec fn count_line_of(value: u32) -> Seq<char> {
    "count: "@ + decimal_digits(value as nat)
}

/// The characters of collected digits (least significant first), reversed.
spec fn rev_chars(ds: Seq<u32>) -> Seq<char>
    decreases ds.len(),
{
    if ds.len() == 0 {
        Seq::empty()
    } else {
        seq![digit_char(ds.last() as nat)] + rev_chars(ds.drop_last())
    }
}

/// Reversing after putting `x` in front appends `x`'s character.
proof fn lemma_rev_chars_unshift(x: u32, ds: Seq<u32>)
    ensures
        rev_chars(seq![x] + ds) == rev_chars(ds) + seq![digit_char(x as nat)],
    decreases ds.len(),
{
    let whole = seq![x] + ds;
    if ds.len() == 0 {
        assert(whole =~= seq![x]);
        assert(whole.drop_last() =~= Seq::<u32>::empty());
        assert(rev_chars(Seq::<u32>::empty()) == Seq::<char>::empty());
        assert(rev_chars(whole) =~= rev_chars(ds) + seq![digit_char(x as nat)]);
    } else {
        assert(whole.last() == ds.last());
        assert(whole.drop_last() =~= seq![x] + ds.drop_last());
        lemma_rev_chars_unshift(x, ds.drop_last());
        assert(rev_chars(whole) == seq![digit_char(ds.last() as nat)] + rev_chars(
            seq![x] + ds.drop_last(),
        ));
        assert(rev_chars(ds) == seq![digit_char(ds.last() as nat)] + rev_chars(ds.drop_last()));
        assert(rev_chars(whole) =~= rev_chars(ds) + seq![digit_char(x as nat)]);
    }
}

/// The string of one digit.
fn digit_str(d: u32) -> (r: &'static str)
    requires
        d < 10,
    ensures
        r@ == seq![digit_char(d as nat)],
{
    proof {
        reveal_strlit("0");
        reveal_strlit("1");
        reveal_strlit("2");
        reveal_strlit("3");
        reveal_strlit("4");
        reveal_strlit("5");
        reveal_strlit("6");
        reveal_strlit("7");
        reveal_strlit("8");
        reveal_strlit("9");
    }
    match d {
        0 => "0",
        1 => "1",
        2 => "2",
        3 => "3",
        4 => "4",
        5 => "5",
        6 => "6",
        7 => "7",
        8 => "8",
        _ => "9",
    }
}

/// Renders one diagnostic record as its human-readable line.
pub fn format_count_line(value: u32) -> (r: String)
    ensures
        r@ == count_line_of(value),
{
    // collect the decimal digits, least significant first
    let mut digits: Vec<u32> = Vec::new();
    let mut v: u32 = value;
    loop
        invariant_except_break
            digits@.len() == 0 ==> v == value,
            digits@.len() > 0 ==> v > 0 && decimal_digits(value as nat) == decimal_digits(
                v as nat,
            ) + rev_chars(digits@),
        invariant
            forall|j: int| 0 <= j < digits@.len() ==> #[trigger] digits@[j] < 10,
        ensures
            digits@.len() > 0,
            decimal_digits(value as nat) == rev_chars(digits@),
            forall|j: int| 0 <= j < digits@.len() ==> #[trigger] digits@[j] < 10,
        decreases v,
    {
        let ghost pre_digits = digits@;
        let ghost pre_v = v as nat;
        let d: u32 = v % 10;
        digits.push(d);
        v = v / 10;
        proof {
            assert(digits@.drop_last() =~= pre_digits);
            assert(rev_chars(digits@) =~= seq![digit_char(d as nat)] + rev_chars(pre_digits));
            if pre_v >= 10 {
                assert(decimal_digits(pre_v) =~= decimal_digits(pre_v / 10) + seq![
                    digit_char(pre_v % 10),
                ]);
                assert(decimal_digits(value as nat) =~= decimal_digits(v as nat) + rev_chars(
                    digits@,
                ));
            } else {
                assert(decimal_digits(pre_v) =~= seq![digit_char(pre_v)]);
                assert(decimal_digits(value as nat) =~= rev_chars(digits@));
            }
        }
        if v == 0 {
            break;
        }
    }
    // the last digit collected is the most significant: append from the end
    let mut line: String = String::from_str("count: ");
    let mut i: usize = digits.len();
    proof {
        assert(digits@.subrange(i as int, digits@.len() as int) =~= Seq::<u32>::empty());
    }
    while i > 0
        invariant
            i <= digits@.len(),
            line@ == "count: "@ + rev_chars(digits@.subrange(i as int, digits@.len() as int)),
            decimal_digits(value as nat) == rev_chars(digits@),
            forall|j: int| 0 <= j < digits@.len() ==> #[trigger] digits@[j] < 10,
        decreases i,
    {
        i = i - 1;
        line.append(digit_str(digits[i]));
        proof {
            let tail = digits@.subrange(i + 1, digits@.len() as int);
            assert(digits@.subrange(i as int, digits@.len() as int) =~= seq![digits@[i as int]]
                + tail);
            lemma_rev_chars_unshift(digits@[i as int], tail);
            assert(line@ =~= "count: "@ + rev_chars(
                digits@.subrange(i as int, digits@.len() as int),
            ));
        }
    }
    proof {
        assert(digits@.subrange(0, digits@.len() as int) =~= digits@);
    }
    line
}

} // verus!
