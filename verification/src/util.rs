use vstd::prelude::*;
use vstd::string::StringExecFns;

verus! {

/// The character for one decimal digit.
pub open spec fn digit_char(d: int) -> char {
    if d == 0 {
        '0'
    } else if d == 1 {
        '1'
    } else if d == 2 {
        '2'
    } else if d == 3 {
        '3'
    } else if d == 4 {
        '4'
    } else if d == 5 {
        '5'
    } else if d == 6 {
        '6'
    } else if d == 7 {
        '7'
    } else if d == 8 {
        '8'
    } else {
        '9'
    }
}

/// The decimal representation of `n`, most significant digit first.
pub open spec fn spec_decimal(n: nat) -> Seq<char>
    decreases n,
{
    if n < 10 {
        seq![digit_char(n as int)]
    } else {
        spec_decimal(n / 10).push(digit_char((n % 10) as int))
    }
}

/// Renders `n` in decimal.
pub fn decimal_string(n: usize) -> (r: String)
    ensures
        r@ == spec_decimal(n as nat),
    decreases n,
{
    let digit: &str = match n % 10 {
        0 => "0",
        1 => "1",
        2 => "2",
        3 => "3",
        4 => "4",
        5 => "5",
        6 => "6",
        7 => "7",
        8 => "8",
        _ => "9",
    };
    proof {
        reveal_strlit("0");
        reveal_strlit("1");
        reveal_strlit("2");
        reveal_strlit("3");
        reveal_strlit("4");
        reveal_strlit("5");
        reveal_strlit("6");
        reveal_strlit("7");
        reveal_strlit("8");
        reveal_strlit("9");
        assert(digit@ =~= seq![digit_char((n % 10) as int)]);
    }
    if n < 10 {
        let r = digit.to_owned();
        proof {
            assert(r@ =~= spec_decimal(n as nat));
        }
        r
    } else {
        let prefix = decimal_string(n / 10);
        let r = prefix.concat(digit);
        proof {
            assert(r@ =~= spec_decimal(n as nat));
        }
        r
    }
}

/// Whether some string of `v` reads `s`.
pub open spec fn seq_contains_chars(v: Seq<String>, s: Seq<char>) -> bool {
    exists|j: int| 0 <= j < v.len() && v[j]@ == s
}

/// Tests whether `needle` occurs in `haystack`.
pub fn contains_string(haystack: &Vec<String>, needle: &String) -> (r: bool)
    ensures
        r == seq_contains_chars(haystack@, needle@),
{
    let mut j: usize = 0;
    while j < haystack.len()
        invariant
            0 <= j <= haystack@.len(),
            forall|k: int| 0 <= k < j ==> haystack@[k]@ != needle@,
        decreases haystack@.len() - j,
    {
        if haystack[j].eq(needle) {
            proof {
                assert(0 <= j < haystack@.len() && haystack@[j as int]@ == needle@);
            }
            return true;
        }
        j = j + 1;
    }
    false
}

} // verus!
