use vstd::prelude::*;

verus! {

/// An ASCII decimal digit.
pub open spec fn is_digit(b: u8) -> bool {
    48 <= b <= 57
}

/// The number that a string of decimal digits spells.
pub open spec fn digits_value(s: Seq<u8>) -> nat
    decreases s.len(),
{
    if s.len() == 0 {
        0
    } else {
        digits_value(s.drop_last()) * 10 + (s.last() - 48) as nat
    }
}

/// The process lookup's output without its final line break.
pub open spec fn pid_body(s: Seq<u8>) -> Seq<u8> {
    if s.len() > 0 && s.last() == 10 {
        s.drop_last()
    } else {
        s
    }
}

/// The one process identity that a lookup's output names: a single non-empty
/// line of digits. No line, several lines or anything else name none.
pub open spec fn single_pid(s: Seq<u8>) -> Option<nat> {
    let b = pid_body(s);
    if b.len() > 0 && forall|i: int| 0 <= i < b.len() ==> is_digit(#[trigger] b[i]) {
        Some(digits_value(b))
    } else {
        None
    }
}

proof fn lemma_digits_grow(s: Seq<u8>, i: int, j: int)
    requires
        0 <= i <= j <= s.len(),
        forall|k: int| 0 <= k < s.len() ==> is_digit(#[trigger] s[k]),
    ensures
        digits_value(s.subrange(0, i)) <= digits_value(s.subrange(0, j)),
    decreases j - i,
{
    if i < j {
        lemma_digits_grow(s, i, j - 1);
        assert(s.subrange(0, j).drop_last() =~= s.subrange(0, j - 1));
    }
}

/// Reads the identity of the one running daemon from the output of the
/// process lookup; `None` where it names no process, several, or one whose
/// number does not fit in 32 bits.
pub fn parse_pid(out: &[u8]) -> (r: Option<u32>)
    ensures
        match single_pid(out@) {
            Some(v) => if v <= u32::MAX {
                r == Some(v as u32)
            } else {
                r is None
            },
            None => r is None,
        },
{
    let mut n: usize = out.len();
    if n > 0 && out[n - 1] == 10u8 {
        n = n - 1;
    }
    let ghost body = pid_body(out@);
    assert(body =~= out@.subrange(0, n as int));
    if n == 0 {
        return None;
    }
    let mut i: usize = 0;
    while i < n
        invariant
            n <= out@.len(),
            0 <= i <= n,
            body == out@.subrange(0, n as int),
            body == pid_body(out@),
            forall|k: int| 0 <= k < i ==> is_digit(#[trigger] body[k]),
        decreases n - i,
    {
        assert(body[i as int] == out@[i as int]);
        if out[i] < 48u8 || out[i] > 57u8 {
            assert(!is_digit(body[i as int]));
            return None;
        }
        i = i + 1;
    }
    let mut acc: u64 = 0;
    let mut i: usize = 0;
    while i < n
        invariant
            n <= out@.len(),
            0 <= i <= n,
            body == out@.subrange(0, n as int),
            body == pid_body(out@),
            forall|k: int| 0 <= k < body.len() ==> is_digit(#[trigger] body[k]),
            acc as nat == digits_value(body.subrange(0, i as int)),
            acc <= u32::MAX,
        decreases n - i,
    {
        assert(body.subrange(0, i + 1).drop_last() =~= body.subrange(0, i as int));
        assert(body[i as int] == out@[i as int]);
        assert(is_digit(body[i as int]));
        let d: u64 = (out[i] - 48u8) as u64;
        acc = acc * 10 + d;
        i = i + 1;
        if acc > 4294967295u64 {
            proof {
                lemma_digits_grow(body, i as int, n as int);
                assert(body.subrange(0, n as int) =~= body);
            }
            return None;
        }
    }
    assert(body.subrange(0, n as int) =~= body);
    Some(acc as u32)
}

} // verus!
