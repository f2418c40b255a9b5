//! Text primitives the analyzer is built on: turning a string into its
//! character sequence, substring containment, and decimal rendering of an
//! index (for synthesized positional field names).

use vstd::prelude::*;

verus! {

/// The character sequence `h` contains `n` as a contiguous run.
pub open spec fn contains_seq(h: Seq<char>, n: Seq<char>) -> bool {
    exists|i: int|
        0 <= i && i + n.len() <= h.len() && #[trigger] h.subrange(i, i + n.len() as int) == n
}

/// The characters of `s`, in order.
pub fn chars_of(s: &str) -> (r: Vec<char>)
    ensures
        r@ == s@,
{
    let n: usize = s.unicode_len();
    let mut v: Vec<char> = Vec::new();
    let mut i: usize = 0;
    while i < n
        invariant
            n == s@.len(),
            i <= n,
            v@ == s@.take(i as int),
        decreases n - i,
    {
        let c = s.get_char(i);
        v.push(c);
        i += 1;
        proof {
            assert(v@ =~= s@.take(i as int));
        }
    }
    proof {
        assert(v@ =~= s@);
    }
    v
}

/// Whether `h` contains `n` as a contiguous run of characters.
pub fn contains_chars(h: &Vec<char>, n: &Vec<char>) -> (r: bool)
    ensures
        r == contains_seq(h@, n@),
{
    let hl: usize = h.len();
    let m: usize = n.len();
    if m > hl {
        proof {
            assert(!contains_seq(h@, n@)) by {
                if contains_seq(h@, n@) {
                    let i = choose|i: int|
                        0 <= i && i + n@.len() <= h@.len() && #[trigger] h@.subrange(
                            i,
                            i + n@.len() as int,
                        ) == n@;
                    assert(i + n@.len() <= h@.len());
                }
            }
        }
        return false;
    }
    let mut i: usize = 0;
    while i <= hl - m
        invariant
            m <= hl,
            hl == h@.len(),
            m == n@.len(),
            i <= hl - m + 1,
            forall|p: int| 0 <= p < i ==> #[trigger] h@.subrange(p, p + m as int) != n@,
        decreases hl - m + 1 - i,
    {
        let mut j: usize = 0;
        let mut same_run: bool = true;
        while same_run && j < m
            invariant
                m <= hl,
                hl == h@.len(),
                m == n@.len(),
                i + m <= hl,
                j <= m,
                same_run ==> forall|k: int| 0 <= k < j ==> h@[i + k] == n@[k],
                !same_run ==> h@.subrange(i as int, i + m as int) != n@,
            decreases m - j,
        {
            if h[i + j] != n[j] {
                proof {
                    assert(h@.subrange(i as int, i + m as int)[j as int] == h@[i + j]);
                    assert(h@.subrange(i as int, i + m as int) != n@);
                }
                same_run = false;
                j = m;
            } else {
                j += 1;
            }
        }
        if same_run {
            proof {
                assert(h@.subrange(i as int, i + m as int) =~= n@) by {
                    assert(forall|k: int|
                        0 <= k < m ==> #[trigger] h@.subrange(i as int, i + m as int)[k] == h@[i
                            + k]);
                }
            }
            return true;
        }
        i += 1;
    }
    proof {
        assert(!contains_seq(h@, n@)) by {
            if contains_seq(h@, n@) {
                let p = choose|p: int|
                    0 <= p && p + n@.len() <= h@.len() && #[trigger] h@.subrange(
                        p,
                        p + n@.len() as int,
                    ) == n@;
                assert(p < i);
            }
        }
    }
    false
}

/// Whether the characters of `h` contain the literal `pat`.
pub fn contains_str(h: &Vec<char>, pat: &str) -> (r: bool)
    ensures
        r == contains_seq(h@, pat@),
{
    let nd = chars_of(pat);
    contains_chars(h, &nd)
}

/// The decimal digit character for `d`.
pub open spec fn decimal_digit(d: nat) -> char {
    if d == 0 {
        '0'
    } else if d == 1 {
        '1'
    } else if d == 2 {
        '2'
    } else if d == 3 {
        '3'
    } else if d == 4 {
        '4'
    } else if d == 5 {
        '5'
    } else if d == 6 {
        '6'
    } else if d == 7 {
        '7'
    } else if d == 8 {
        '8'
    } else {
        '9'
    }
}

/// The decimal rendering of `n`, most significant digit first.
pub open spec fn decimal(n: nat) -> Seq<char>
    decreases n,
{
    if n < 10 {
        seq![decimal_digit(n)]
    } else {
        decimal(n / 10) + seq![decimal_digit(n % 10)]
    }
}

fn digit_str(d: usize) -> (r: &'static str)
    requires
        d < 10,
    ensures
        r@ == seq![decimal_digit(d as nat)],
{
    if d == 0 {
        proof {
            reveal_strlit("0");
            assert("0"@ =~= seq![decimal_digit(0)]);
        }
        "0"
    } else if d == 1 {
        proof {
            reveal_strlit("1");
            assert("1"@ =~= seq![decimal_digit(1)]);
        }
        "1"
    } else if d == 2 {
        proof {
            reveal_strlit("2");
            assert("2"@ =~= seq![decimal_digit(2)]);
        }
        "2"
    } else if d == 3 {
        proof {
            reveal_strlit("3");
            assert("3"@ =~= seq![decimal_digit(3)]);
        }
        "3"
    } else if d == 4 {
        proof {
            reveal_strlit("4");
            assert("4"@ =~= seq![decimal_digit(4)]);
        }
        "4"
    } else if d == 5 {
        proof {
            reveal_strlit("5");
            assert("5"@ =~= seq![decimal_digit(5)]);
        }
        "5"
    } else if d == 6 {
        proof {
            reveal_strlit("6");
            assert("6"@ =~= seq![decimal_digit(6)]);
        }
        "6"
    } else if d == 7 {
        proof {
            reveal_strlit("7");
            assert("7"@ =~= seq![decimal_digit(7)]);
        }
        "7"
    } else if d == 8 {
        proof {
            reveal_strlit("8");
            assert("8"@ =~= seq![decimal_digit(8)]);
        }
        "8"
    } else {
        proof {
            reveal_strlit("9");
            assert("9"@ =~= seq![decimal_digit(9)]);
        }
        "9"
    }
}

/// Appends the decimal rendering of `n` to `s`.
pub fn push_decimal(s: &mut String, n: usize)
    ensures
        final(s)@ == old(s)@ + decimal(n as nat),
    decreases n,
{
    if n >= 10 {
        push_decimal(s, n / 10);
    }
    let d: usize = n % 10;
    let ds = digit_str(d);
    s.append(ds);
    proof {
        assert(s@ =~= old(s)@ + decimal(n as nat));
    }
}

/// The synthesized name of the positional field at index `i`.
pub open spec fn positional_field_name(i: nat) -> Seq<char> {
    "field_"@ + decimal(i)
}

/// Builds the synthesized name `field_<i>` for a positional field.
pub fn field_name_for_index(i: usize) -> (r: String)
    ensures
        r@ == positional_field_name(i as nat),
{
    let mut s = String::from_str("field_");
    push_decimal(&mut s, i);
    s
}

} // verus!
