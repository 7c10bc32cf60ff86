use vstd::prelude::*;

verus! {

/// The ASCII digit that stands for `d`, for `d` below ten.
pub open spec fn digit_char(d: nat) -> char {
    (48 + d) as char
}

/// The decimal numeral of `n`, without leading zeros (`0` is "0").
pub open spec fn decimal(n: nat) -> Seq<char>
    decreases n,
{
    if n < 10 {
        seq![digit_char(n)]
    } else {
        decimal(n / 10).push(digit_char(n % 10))
    }
}

/// The decimal numeral of `n`, padded on the left with zeros to at least three
/// characters.
pub open spec fn decimal_width3(n: nat) -> Seq<char> {
    if n < 10 {
        seq!['0', '0'] + decimal(n)
    } else if n < 100 {
        seq!['0'] + decimal(n)
    } else {
        decimal(n)
    }
}

/// The number that a string of ASCII digits denotes in base ten (the empty
/// string denotes zero).
pub open spec fn numeral_value(s: Seq<char>) -> nat
    decreases s.len(),
{
    if s.len() == 0 {
        0
    } else {
        numeral_value(s.drop_last()) * 10 + ((s.last() as int - 48) as nat)
    }
}

/// Whether every character of `s` is an ASCII digit.
pub open spec fn all_digits(s: Seq<char>) -> bool {
    forall|i: int| 0 <= i < s.len() ==> '0' <= #[trigger] s[i] <= '9'
}

/// The numeral of `n` is a nonempty string of digits without a leading zero,
/// and it denotes `n`.
pub proof fn lemma_decimal_denotes(n: nat)
    ensures
        decimal(n).len() >= 1,
        all_digits(decimal(n)),
        numeral_value(decimal(n)) == n,
        n > 0 ==> decimal(n)[0] != '0',
    decreases n,
{
    if n >= 10 {
        lemma_decimal_denotes(n / 10);
        let d = decimal(n);
        assert(d.drop_last() =~= decimal(n / 10));
        assert(d.last() as int == 48 + n % 10);
    } else {
        assert(decimal(n).drop_last() =~= Seq::<char>::empty());
        assert(decimal(n).last() as int == 48 + n);
        assert(numeral_value(Seq::<char>::empty()) == 0);
    }
}

/// Leading zeros do not change the number a numeral denotes.
pub proof fn lemma_leading_zero(s: Seq<char>)
    ensures
        numeral_value(seq!['0'] + s) == numeral_value(s),
    decreases s.len(),
{
    if s.len() > 0 {
        lemma_leading_zero(s.drop_last());
        assert((seq!['0'] + s).drop_last() =~= seq!['0'] + s.drop_last());
        assert((seq!['0'] + s).last() == s.last());
    } else {
        assert(seq!['0'] + s =~= seq!['0']);
        assert((seq!['0'] + s).drop_last() =~= Seq::<char>::empty());
        assert('0' as int == 48);
        assert(numeral_value(Seq::<char>::empty()) == 0);
    }
}

/// Below one thousand, the padded numeral has exactly three digits and denotes
/// the number.
pub proof fn lemma_decimal_width3_denotes(m: nat)
    requires
        m < 1000,
    ensures
        decimal_width3(m).len() == 3,
        all_digits(decimal_width3(m)),
        numeral_value(decimal_width3(m)) == m,
{
    lemma_decimal_denotes(m);
    if m < 10 {
        assert(decimal(m).len() == 1);
        lemma_leading_zero(decimal(m));
        lemma_leading_zero(seq!['0'] + decimal(m));
        assert(seq!['0', '0'] + decimal(m) =~= seq!['0'] + (seq!['0'] + decimal(m)));
    } else if m < 100 {
        reveal_with_fuel(decimal, 2);
        assert(decimal(m).len() == 2);
        lemma_leading_zero(decimal(m));
    } else {
        reveal_with_fuel(decimal, 3);
        assert(decimal(m).len() == 3);
    }
}

/// The line that reports how long one proof took.
pub open spec fn spec_prove_time_report(secs: nat, millis: nat) -> Seq<char> {
    "prove: "@ + decimal(secs) + "."@ + decimal_width3(millis) + " sec"@
}

/// Whether `whole` is a base-ten numeral without leading zeros that denotes `n`.
pub open spec fn is_plain_numeral(whole: Seq<char>, n: nat) -> bool {
    &&& whole.len() >= 1
    &&& all_digits(whole)
    &&& numeral_value(whole) == n
    &&& (whole.len() > 1 ==> whole[0] != '0')
}

/// Whether `frac` is the numeral of `n` padded with zeros to at least three
/// digits: three digits exactly below one thousand, otherwise no leading zero.
pub open spec fn is_width3_numeral(frac: Seq<char>, n: nat) -> bool {
    &&& frac.len() >= 3
    &&& all_digits(frac)
    &&& numeral_value(frac) == n
    &&& (n < 1000 ==> frac.len() == 3)
    &&& (frac.len() > 3 ==> frac[0] != '0')
}

/// Whether `line` reports `secs` seconds and `millis` milliseconds: it starts
/// with "prove: " and ends with " sec", and between them stand a numeral
/// without leading zeros that denotes `secs`, a dot, and the zero-padded
/// numeral of `millis`.
pub open spec fn reports_time(line: Seq<char>, secs: nat, millis: nat) -> bool {
    let n = line.len();
    &&& n >= 16
    &&& line.subrange(0, 7) == "prove: "@
    &&& line.subrange(n - 4, n as int) == " sec"@
    &&& exists|k: int|
        7 < k < n - 4 && #[trigger] line[k] == '.' && is_plain_numeral(line.subrange(7, k), secs)
            && is_width3_numeral(line.subrange(k + 1, n - 4), millis)
}

/// The report line reads back as the seconds and the milliseconds it was made
/// from; the milliseconds take exactly three digits whenever they are below
/// one thousand, which is all that `Duration::subsec_millis` gives.
pub proof fn lemma_prove_time_report_reads_back(secs: nat, millis: nat)
    ensures
        reports_time(spec_prove_time_report(secs, millis), secs, millis),
{
    reveal_strlit("prove: ");
    reveal_strlit(".");
    reveal_strlit(" sec");
    lemma_decimal_denotes(secs);
    let d = decimal(secs);
    let f = decimal_width3(millis);
    if millis < 1000 {
        lemma_decimal_width3_denotes(millis);
    } else {
        lemma_decimal_denotes(millis);
        let m1 = millis / 10;
        let m2 = m1 / 10;
        let m3 = m2 / 10;
        lemma_decimal_denotes(m3);
        assert(decimal(millis) == decimal(m1).push(digit_char(millis % 10)));
        assert(decimal(m1) == decimal(m2).push(digit_char(m1 % 10)));
        assert(decimal(m2) == decimal(m3).push(digit_char(m2 % 10)));
        assert(f.len() >= 4);
    }
    if d.len() > 1 {
        assert(secs >= 10) by {
            if secs < 10 {
                assert(d.len() == 1);
            }
        }
    }
    let line = spec_prove_time_report(secs, millis);
    assert(line =~= "prove: "@ + d + "."@ + f + " sec"@);
    let n = line.len();
    let k: int = 7 + d.len() as int;
    assert(n == k + 1 + f.len() + 4);
    assert(line.subrange(0, 7) =~= "prove: "@);
    assert(line.subrange(7, k) =~= d);
    assert(line[k] == '.');
    assert(line.subrange(k + 1, n - 4) =~= f);
    assert(line.subrange(n - 4, n as int) =~= " sec"@);
    assert(is_plain_numeral(line.subrange(7, k), secs));
    assert(is_width3_numeral(line.subrange(k + 1, n - 4), millis));
}

/// `String::push`: appends the character at the end of the string.
#[verifier::external_body]
fn push_char(s: &mut String, c: char)
    ensures
        final(s)@ == old(s)@.push(c),
{
    s.push(c)
}

fn digit(d: u64) -> (c: char)
    requires
        d < 10,
    ensures
        c == digit_char(d as nat),
{
    let b: u8 = 48u8 + (d as u8);
    b as char
}

/// Appends the decimal numeral of `n` to `s`.
fn push_decimal(s: &mut String, n: u64)
    ensures
        final(s)@ == old(s)@ + decimal(n as nat),
    decreases n,
{
    if n >= 10 {
        push_decimal(s, n / 10);
    }
    let c = digit(n % 10);
    push_char(s, c);
    proof {
        if n >= 10 {
            assert(decimal(n as nat) == decimal((n / 10) as nat).push(digit_char((n % 10) as nat)));
        }
    }
}

/// The line printed after a proof: the whole seconds, a dot, the milliseconds
/// zero-padded to three digits, and " sec" (for 12 s 45 ms,
/// "prove: 12.045 sec").
pub fn prove_time_report(secs: u64, millis: u32) -> (line: String)
    ensures
        line@ == spec_prove_time_report(secs as nat, millis as nat),
        reports_time(line@, secs as nat, millis as nat),
{
    let mut line = String::from_str("prove: ");
    push_decimal(&mut line, secs);
    line.append(".");
    let ghost before_millis = line@;
    if millis < 10 {
        push_char(&mut line, '0');
        push_char(&mut line, '0');
    } else if millis < 100 {
        push_char(&mut line, '0');
    }
    push_decimal(&mut line, millis as u64);
    assert(line@ == before_millis + decimal_width3(millis as nat));
    line.append(" sec");
    proof {
        lemma_prove_time_report_reads_back(secs as nat, millis as nat);
    }
    line
}

/// The line printed after a proof is checked: "Ok!" when it verifies, and the
/// verifier's error text otherwise.
pub fn verification_report(outcome: Result<(), String>) -> (line: String)
    ensures
        match outcome {
            Ok(()) => line@ == "Ok!"@,
            Err(e) => line@ == e@,
        },
{
    match outcome {
        Ok(()) => String::from_str("Ok!"),
        Err(e) => e,
    }
}

} // verus!
