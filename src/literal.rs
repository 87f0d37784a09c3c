//! Literal substring replacement: every leftmost, non-overlapping occurrence
//! of `from` is replaced by `to`, scanning left to right.

use vstd::prelude::*;
use vstd::string::StringExecFns;

verus! {

/// `from` occurs in `body` starting at position `i`.
pub open spec fn occurs_at(from: Seq<char>, body: Seq<char>, i: int) -> bool {
    0 <= i && i + from.len() <= body.len() && body.subrange(i, i + from.len()) == from
}

/// `from` occurs somewhere in `body`.
pub open spec fn contains(body: Seq<char>, from: Seq<char>) -> bool {
    exists|i: int| occurs_at(from, body, i)
}

/// The body after literal replacement. An empty `from` leaves the body as it is.
pub open spec fn literal_replaced(from: Seq<char>, to: Seq<char>, body: Seq<char>) -> Seq<char>
    decreases body.len(),
{
    if from.len() == 0 || body.len() == 0 {
        body
    } else if occurs_at(from, body, 0) {
        to + literal_replaced(from, to, body.skip(from.len() as int))
    } else {
        seq![body[0]] + literal_replaced(from, to, body.drop_first())
    }
}

/// Literal replacement with an empty `from` returns the body unchanged.
pub proof fn lemma_empty_from_keeps_body(to: Seq<char>, body: Seq<char>)
    ensures
        literal_replaced(Seq::empty(), to, body) == body,
{
}

/// Literal replacement leaves a body that does not contain `from` unchanged.
pub proof fn lemma_absent_from_keeps_body(from: Seq<char>, to: Seq<char>, body: Seq<char>)
    requires
        !contains(body, from),
    ensures
        literal_replaced(from, to, body) == body,
    decreases body.len(),
{
    if from.len() == 0 || body.len() == 0 {
    } else {
        assert(!occurs_at(from, body, 0));
        let tail = body.drop_first();
        assert forall|j: int| !occurs_at(from, tail, j) by {
            if occurs_at(from, tail, j) {
                assert(body.subrange(j + 1, j + 1 + from.len()) =~= tail.subrange(
                    j,
                    j + from.len(),
                ));
                assert(occurs_at(from, body, j + 1));
            }
        }
        lemma_absent_from_keeps_body(from, to, tail);
        assert(seq![body[0]] + tail =~= body);
    }
}

/// Replacing twice gives what replacing once gives, when `to` does not
/// contain `from` and the first result holds no occurrence of `from`
/// (with a non-empty `from`, those are the bodies on which a second pass
/// changes nothing).
pub proof fn lemma_replace_idempotent(from: Seq<char>, to: Seq<char>, body: Seq<char>)
    requires
        !contains(to, from),
        from.len() == 0 || !contains(literal_replaced(from, to, body), from),
    ensures
        literal_replaced(from, to, literal_replaced(from, to, body)) == literal_replaced(
            from,
            to,
            body,
        ),
{
    let once = literal_replaced(from, to, body);
    if from.len() == 0 {
        lemma_empty_from_keeps_body(to, once);
        assert(from =~= Seq::<char>::empty());
    } else {
        lemma_absent_from_keeps_body(from, to, once);
    }
}

/// Relies on `String::push`: appends one character.
#[verifier::external_body]
fn push_char(s: &mut String, c: char)
    ensures
        final(s)@ == old(s)@.push(c),
{
    s.push(c);
}

/// The characters of `s`, in order.
pub(crate) fn chars_of(s: &str) -> (r: Vec<char>)
    ensures
        r@ == s@,
{
    let mut r: Vec<char> = Vec::new();
    for c in it: s.chars()
        invariant
            it.seq() == s@,
            r@ == it.seq().subrange(0, it.index()),
    {
        r.push(c);
    }
    r
}

/// Whether `from` occurs in `body` starting at position `i`.
fn matches_at(from: &Vec<char>, body: &Vec<char>, i: usize) -> (r: bool)
    requires
        i <= body@.len(),
    ensures
        r == occurs_at(from@, body@, i as int),
{
    if from.len() > body.len() - i {
        return false;
    }
    let mut k: usize = 0;
    while k < from.len()
        invariant
            i + from.len() <= body.len(),
            k <= from@.len(),
            forall|j: int| 0 <= j < k ==> body@[i + j] == from@[j],
        decreases from@.len() - k,
    {
        if body[i + k] != from[k] {
            assert(body@.subrange(i as int, i + from@.len())[k as int] != from@[k as int]);
            return false;
        }
        k = k + 1;
    }
    assert(body@.subrange(i as int, i + from@.len()) =~= from@);
    true
}

/// Replaces every leftmost, non-overlapping occurrence of `from` in `body`
/// by `to`. An empty `from` leaves `body` unchanged.
pub fn replace_literal(from: &str, to: &str, body: &str) -> (r: String)
    ensures
        r@ == literal_replaced(from@, to@, body@),
{
    let f = chars_of(from);
    let b = chars_of(body);
    let mut out = String::new();
    if f.len() == 0 {
        out.append(body);
        return out;
    }
    let n = b.len();
    let mut i: usize = 0;
    assert(body@.skip(0) =~= body@);
    while i < n
        invariant
            n == b@.len(),
            f@ == from@,
            b@ == body@,
            f@.len() > 0,
            i <= n,
            literal_replaced(from@, to@, body@) == out@ + literal_replaced(
                from@,
                to@,
                body@.skip(i as int),
            ),
        decreases n - i,
    {
        let ghost rest = body@.skip(i as int);
        assert(occurs_at(from@, rest, 0) == occurs_at(from@, body@, i as int)) by {
            if i + from@.len() <= n {
                assert(rest.subrange(0, from@.len() as int) =~= body@.subrange(
                    i as int,
                    i + from@.len(),
                ));
            }
        }
        if matches_at(&f, &b, i) {
            assert(rest.skip(from@.len() as int) =~= body@.skip(i + from@.len()));
            out.append(to);
            i = i + f.len();
        } else {
            assert(rest.drop_first() =~= body@.skip(i + 1));
            assert(rest[0] == b@[i as int]);
            push_char(&mut out, b[i]);
            i = i + 1;
        }
    }
    assert(body@.skip(n as int) =~= Seq::<char>::empty());
    out
}

} // verus!
