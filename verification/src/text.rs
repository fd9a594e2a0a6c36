use vstd::prelude::*;

verus! {

/// Relies on `String::push` of std: appends exactly the one character `c`.
#[verifier::external_body]
pub fn push_char(s: &mut String, c: char)
    ensures
        final(s)@ == old(s)@.push(c),
{
    s.push(c);
}

/// Character-for-character string comparison.
pub fn str_eq(a: &str, b: &str) -> (r: bool)
    ensures
        r == (a@ == b@),
{
    let la = a.unicode_len();
    let lb = b.unicode_len();
    if la != lb {
        return false;
    }
    let mut i: usize = 0;
    while i < la
        invariant
            la as nat == a@.len(),
            lb as nat == b@.len(),
            la == lb,
            i <= la,
            forall|j: int| 0 <= j < i ==> a@[j] == b@[j],
        decreases la - i,
    {
        let ca = a.get_char(i);
        let cb = b.get_char(i);
        if ca != cb {
            return false;
        }
        i = i + 1;
    }
    proof {
        assert(a@ =~= b@);
    }
    true
}

/// The decimal digit character for `d` (`0 <= d <= 9`).
pub open spec fn digit_char(d: int) -> char {
    ((48 + d) as u8) as char
}

/// Decimal text of the natural number `n`, most significant digit first.
pub open spec fn dec_digits(n: nat) -> Seq<char>
    decreases n,
{
    if n < 10 {
        seq![digit_char(n as int)]
    } else {
        dec_digits(n / 10).push(digit_char((n % 10) as int))
    }
}

/// Decimal text of the integer `i`, with a leading `-` when negative.
pub open spec fn dec_int(i: int) -> Seq<char> {
    if i < 0 {
        seq!['-'] + dec_digits((-i) as nat)
    } else {
        dec_digits(i as nat)
    }
}

pub fn u64_to_dec(n: u64) -> (s: String)
    ensures
        s@ == dec_digits(n as nat),
    decreases n,
{
    if n < 10 {
        let mut s = String::new();
        push_char(&mut s, (48u8 + n as u8) as char);
        proof {
            assert(s@ =~= dec_digits(n as nat));
        }
        s
    } else {
        let mut s = u64_to_dec(n / 10);
        push_char(&mut s, (48u8 + (n % 10) as u8) as char);
        proof {
            assert(s@ =~= dec_digits(n as nat));
        }
        s
    }
}

pub fn i64_to_dec(n: i64) -> (s: String)
    ensures
        s@ == dec_int(n as int),
{
    if n >= 0 {
        u64_to_dec(n as u64)
    } else {
        let m: u64 = (-(n as i128)) as u64;
        let mut s = String::from_str("-");
        let d = u64_to_dec(m);
        s.append(d.as_str());
        proof {
            reveal_strlit("-");
            assert(s@ =~= dec_int(n as int));
        }
        s
    }
}

} // verus!
