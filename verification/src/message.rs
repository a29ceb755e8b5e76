use vstd::prelude::*;

verus! {

/// The characters after the last `=` (all of them when there is none).
pub open spec fn after_last_eq(s: Seq<char>) -> Seq<char>
    decreases s.len(),
{
    if s.len() == 0 {
        s
    } else if s.last() == '=' {
        Seq::<char>::empty()
    } else {
        after_last_eq(s.drop_last()).push(s.last())
    }
}

/// `s` without its double quotes and spaces.
pub open spec fn without_quotes_spaces(s: Seq<char>) -> Seq<char>
    decreases s.len(),
{
    if s.len() == 0 {
        s
    } else if s.last() == '"' || s.last() == ' ' {
        without_quotes_spaces(s.drop_last())
    } else {
        without_quotes_spaces(s.drop_last()).push(s.last())
    }
}

/// `s` without its last `n` characters (empty when it has fewer).
pub open spec fn drop_last_n(s: Seq<char>, n: nat) -> Seq<char> {
    if s.len() <= n {
        Seq::<char>::empty()
    } else {
        s.take(s.len() - n)
    }
}

/// `pat` stands somewhere in `s`.
pub open spec fn contains_chars(s: Seq<char>, pat: Seq<char>) -> bool {
    exists|i: int| 0 <= i && i + pat.len() <= s.len() && #[trigger] s.subrange(i, i + pat.len()) == pat
}

pub open spec fn blocking_chars() -> Seq<char> {
    seq!['b', 'l', 'o', 'c', 'k', 'i', 'n', 'g']
}

/// What a message attribute `(result = "T")` or `(result = "T", blocking)`
/// says, read from its token text: the text of the result type `T`, and
/// whether the message is handled as blocking code. The text after the last
/// `=`, without quotes and spaces, loses its closing bracket, and, when it
/// names `blocking`, the nine characters of `,blocking` too.
pub open spec fn message_attr_spec(tokens: Seq<char>) -> (Seq<char>, bool) {
    let t = drop_last_n(without_quotes_spaces(after_last_eq(tokens)), 1);
    let blocking = contains_chars(t, blocking_chars());
    (if blocking {
        drop_last_n(t, 9)
    } else {
        t
    }, blocking)
}

fn contains_blocking(s: &Vec<char>) -> (r: bool)
    ensures
        r == contains_chars(s@, blocking_chars()),
{
    let pat: Vec<char> = vec!['b', 'l', 'o', 'c', 'k', 'i', 'n', 'g'];
    assert(pat@ =~= blocking_chars());
    if s.len() < 8 {
        return false;
    }
    let n: usize = s.len();
    let count = n - 7;
    let mut i: usize = 0;
    while i < count
        invariant
            count + 7 == s@.len(),
            n == s@.len(),
            pat@ == blocking_chars(),
            pat@.len() == 8,
            i <= count,
            forall|j: int| 0 <= j < i ==> #[trigger] s@.subrange(j, j + 8) != pat@,
        decreases count - i,
    {
        let mut k: usize = 0;
        let mut same = true;
        while k < 8
            invariant
                count + 7 == s@.len(),
                n == s@.len(),
                i < count,
                pat@.len() == 8,
                k <= 8,
                same == (forall|m: int| 0 <= m < k ==> s@[i + m] == pat@[m]),
            decreases 8 - k,
        {
            if s[i + k] != pat[k] {
                same = false;
            }
            k = k + 1;
        }
        if same {
            assert(s@.subrange(i as int, i + 8) =~= pat@);
            return true;
        }
        assert(!(s@.subrange(i as int, i + 8) =~= pat@));
        i = i + 1;
    }
    assert forall|j: int|
        0 <= j && j + blocking_chars().len() <= s@.len() implies #[trigger] s@.subrange(
        j,
        j + blocking_chars().len(),
    ) != blocking_chars() by {
        assert(j < count);
    }
    false
}

/// Reads a message attribute's token text: the result type's text, and whether
/// the message is blocking.
pub fn message_attr(tokens: &Vec<char>) -> (r: (Vec<char>, bool))
    ensures
        (r.0@, r.1) == message_attr_spec(tokens@),
{
    // The text after the last `=`.
    let mut start: usize = 0;
    let mut i: usize = 0;
    while i < tokens.len()
        invariant
            i <= tokens@.len(),
            start <= i,
            after_last_eq(tokens@.take(i as int)) =~= tokens@.subrange(start as int, i as int),
        decreases tokens@.len() - i,
    {
        assert(tokens@.take(i + 1).drop_last() =~= tokens@.take(i as int));
        if tokens[i] == '=' {
            start = i + 1;
        }
        i = i + 1;
    }
    assert(tokens@.take(tokens@.len() as int) =~= tokens@);
    // Without quotes and spaces.
    let mut text: Vec<char> = Vec::new();
    let mut k: usize = start;
    while k < tokens.len()
        invariant
            start <= k <= tokens@.len(),
            text@ =~= without_quotes_spaces(tokens@.subrange(start as int, k as int)),
        decreases tokens@.len() - k,
    {
        assert(tokens@.subrange(start as int, k + 1).drop_last() =~= tokens@.subrange(
            start as int,
            k as int,
        ));
        let c = tokens[k];
        if c != '"' && c != ' ' {
            text.push(c);
        }
        k = k + 1;
    }
    // The closing bracket.
    text.pop();
    assert(text@ =~= drop_last_n(without_quotes_spaces(after_last_eq(tokens@)), 1));
    let blocking = contains_blocking(&text);
    if blocking {
        let mut n: usize = 0;
        let ghost t = text@;
        while n < 9
            invariant
                n <= 9,
                text@ =~= drop_last_n(t, n as nat),
            decreases 9 - n,
        {
            text.pop();
            n = n + 1;
        }
    }
    (text, blocking)
}


proof fn lemma_after_last_eq_tail(p: Seq<char>, q: Seq<char>)
    requires
        forall|k: int| 0 <= k < q.len() ==> q[k] != '=',
    ensures
        after_last_eq(p.push('=') + q) == q,
    decreases q.len(),
{
    let s = p.push('=') + q;
    if q.len() == 0 {
        assert(s =~= p.push('='));
    } else {
        assert(s.drop_last() =~= p.push('=') + q.drop_last());
        lemma_after_last_eq_tail(p, q.drop_last());
        assert(q.drop_last().push(q.last()) =~= q);
    }
}

proof fn lemma_without_quotes_spaces_concat(a: Seq<char>, b: Seq<char>)
    ensures
        without_quotes_spaces(a + b) == without_quotes_spaces(a) + without_quotes_spaces(b),
    decreases b.len(),
{
    if b.len() == 0 {
        assert(a + b =~= a);
        assert(without_quotes_spaces(a) + without_quotes_spaces(b) =~= without_quotes_spaces(a));
    } else {
        assert((a + b).drop_last() =~= a + b.drop_last());
        lemma_without_quotes_spaces_concat(a, b.drop_last());
        let wa = without_quotes_spaces(a);
        let wb = without_quotes_spaces(b.drop_last());
        assert((wa + wb).push(b.last()) =~= wa + wb.push(b.last()));
    }
}

proof fn lemma_without_quotes_spaces_one(c: char)
    ensures
        without_quotes_spaces(seq![c]) == (if c == '"' || c == ' ' {
            Seq::<char>::empty()
        } else {
            seq![c]
        }),
{
    assert(seq![c].drop_last() =~= Seq::<char>::empty());
    assert(without_quotes_spaces(Seq::<char>::empty()) == Seq::<char>::empty());
    assert(Seq::<char>::empty().push(c) =~= seq![c]);
}

/// The token text of `(result = "T")` after a last `=`, where `T` holds no
/// `=` and no double quote.
pub open spec fn plain_attr_tokens(p: Seq<char>, t: Seq<char>) -> Seq<char> {
    p.push('=') + seq![' ', '"'] + t + seq!['"', ')']
}

/// The token text of `(result = "T", blocking)` after a last `=`.
pub open spec fn blocking_attr_tokens(p: Seq<char>, t: Seq<char>) -> Seq<char> {
    p.push('=') + seq![' ', '"'] + t + seq!['"', ',', ' ', 'b', 'l', 'o', 'c', 'k', 'i', 'n', 'g', ')']
}

/// An attribute `(result = "T")` whose type text, without its spaces, does
/// not hold the word `blocking` reads as not blocking, and its result text is
/// `T` with its spaces removed, commas included.
pub proof fn law_plain_attribute(p: Seq<char>, t: Seq<char>)
    requires
        forall|k: int| 0 <= k < t.len() ==> t[k] != '=' && t[k] != '"',
        !contains_chars(without_quotes_spaces(t), blocking_chars()),
    ensures
        message_attr_spec(plain_attr_tokens(p, t)) == (without_quotes_spaces(t), false),
{
    let q = seq![' ', '"'] + t + seq!['"', ')'];
    assert forall|k: int| 0 <= k < q.len() implies q[k] != '=' by {
        if k >= 2 && k < 2 + t.len() {
            assert(q[k] == t[k - 2]);
        }
    }
    assert(plain_attr_tokens(p, t) =~= p.push('=') + q);
    lemma_after_last_eq_tail(p, q);
    lemma_without_quotes_spaces_concat(seq![' ', '"'] + t, seq!['"', ')']);
    lemma_without_quotes_spaces_concat(seq![' ', '"'], t);
    lemma_without_quotes_spaces_concat(seq![' '], seq!['"']);
    assert(seq![' '] + seq!['"'] =~= seq![' ', '"']);
    lemma_without_quotes_spaces_one(' ');
    lemma_without_quotes_spaces_one('"');
    lemma_without_quotes_spaces_concat(seq!['"'], seq![')']);
    assert(seq!['"'] + seq![')'] =~= seq!['"', ')']);
    lemma_without_quotes_spaces_one(')');
    let w = without_quotes_spaces(t);
    assert(without_quotes_spaces(q) =~= w + seq![')']);
    assert(drop_last_n(w + seq![')'], 1) =~= w);
}

/// An attribute `(result = "T", blocking)` reads as blocking, and its result
/// text is `T` with its spaces removed.
pub proof fn law_blocking_attribute(p: Seq<char>, t: Seq<char>)
    requires
        forall|k: int| 0 <= k < t.len() ==> t[k] != '=' && t[k] != '"',
    ensures
        message_attr_spec(blocking_attr_tokens(p, t)) == (without_quotes_spaces(t), true),
{
    let tail = seq!['"', ',', ' ', 'b', 'l', 'o', 'c', 'k', 'i', 'n', 'g', ')'];
    let q = seq![' ', '"'] + t + tail;
    assert forall|k: int| 0 <= k < q.len() implies q[k] != '=' by {
        if k >= 2 && k < 2 + t.len() {
            assert(q[k] == t[k - 2]);
        }
    }
    assert(blocking_attr_tokens(p, t) =~= p.push('=') + q);
    lemma_after_last_eq_tail(p, q);
    lemma_without_quotes_spaces_concat(seq![' ', '"'] + t, tail);
    lemma_without_quotes_spaces_concat(seq![' ', '"'], t);
    lemma_without_quotes_spaces_concat(seq![' '], seq!['"']);
    assert(seq![' '] + seq!['"'] =~= seq![' ', '"']);
    lemma_without_quotes_spaces_one(' ');
    lemma_without_quotes_spaces_one('"');
    // The tail loses its quote and its space.
    let kept = seq![',', 'b', 'l', 'o', 'c', 'k', 'i', 'n', 'g', ')'];
    lemma_without_quotes_spaces_concat(seq!['"', ',', ' '], seq!['b', 'l', 'o', 'c', 'k', 'i', 'n', 'g', ')']);
    assert(seq!['"', ',', ' '] + seq!['b', 'l', 'o', 'c', 'k', 'i', 'n', 'g', ')'] =~= tail);
    lemma_without_quotes_spaces_concat(seq!['"', ','], seq![' ']);
    assert(seq!['"', ','] + seq![' '] =~= seq!['"', ',', ' ']);
    lemma_without_quotes_spaces_concat(seq!['"'], seq![',']);
    assert(seq!['"'] + seq![','] =~= seq!['"', ',']);
    lemma_without_quotes_spaces_one(',');
    lemma_no_quotes_spaces(seq!['b', 'l', 'o', 'c', 'k', 'i', 'n', 'g', ')']);
    assert(without_quotes_spaces(tail) =~= kept);
    let w = without_quotes_spaces(t);
    assert(without_quotes_spaces(q) =~= w + kept);
    let x = drop_last_n(w + kept, 1);
    assert(x =~= w + seq![',', 'b', 'l', 'o', 'c', 'k', 'i', 'n', 'g']);
    let at: int = (w.len() + 1) as int;
    assert(x.subrange(at, at + blocking_chars().len()) =~= blocking_chars());
    assert(contains_chars(x, blocking_chars()));
    assert(drop_last_n(x, 9) =~= w);
}

proof fn lemma_no_quotes_spaces(s: Seq<char>)
    requires
        forall|k: int| 0 <= k < s.len() ==> s[k] != '"' && s[k] != ' ',
    ensures
        without_quotes_spaces(s) == s,
    decreases s.len(),
{
    if s.len() > 0 {
        lemma_no_quotes_spaces(s.drop_last());
        assert(s.drop_last().push(s.last()) =~= s);
    }
}

} // verus!
