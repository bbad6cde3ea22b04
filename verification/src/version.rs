//! Version strings: from the full version of a release, such as
//! `1.62.1 (e092d0b6b 2022-07-16)`, to the `major.minor` form that a manifest
//! carries in its `rust-version` field.

use vstd::prelude::*;
use vstd::string::StrSliceExecFns;

verus! {

/// The longest prefix of `s` in which `c` occurs at most `limit` times: `s` is
/// cut just before occurrence number `limit + 1` of `c`, and is kept whole when
/// there is no such occurrence.
pub open spec fn take_within(s: Seq<char>, c: char, limit: nat) -> Seq<char>
    decreases s.len(),
{
    if s.len() == 0 {
        s
    } else if s[0] != c {
        seq![s[0]] + take_within(s.drop_first(), c, limit)
    } else if limit == 0 {
        Seq::empty()
    } else {
        seq![s[0]] + take_within(s.drop_first(), c, (limit - 1) as nat)
    }
}

/// How often `c` occurs in `s`.
pub open spec fn occurrences(s: Seq<char>, c: char) -> nat
    decreases s.len(),
{
    if s.len() == 0 {
        0
    } else if s[0] == c {
        1 + occurrences(s.drop_first(), c)
    } else {
        occurrences(s.drop_first(), c)
    }
}

/// The version proper: what stands before the first space of `text`.
pub open spec fn version_token(text: Seq<char>) -> Seq<char> {
    take_within(text, ' ', 0)
}

/// The first two dot-separated components of `version`, joined by a dot; all of
/// `version` when it has fewer than two dots.
pub open spec fn major_minor(version: Seq<char>) -> Seq<char> {
    take_within(version, '.', 1)
}

/// The `major.minor` form of the version that `text` starts with, or `None`
/// where nothing stands before the first space of `text`.
pub open spec fn normalized(text: Seq<char>) -> Option<Seq<char>> {
    if version_token(text).len() == 0 {
        None
    } else {
        Some(major_minor(version_token(text)))
    }
}

/// What `take_within` gives is the longest prefix within the limit: it is a
/// prefix of `s`, `c` occurs in it at most `limit` times, and where it is not
/// all of `s`, the limit is used up and the next character of `s` is `c`.
pub proof fn lemma_take_within_longest(s: Seq<char>, c: char, limit: nat)
    ensures
        take_within(s, c, limit).len() <= s.len(),
        take_within(s, c, limit) == s.take(take_within(s, c, limit).len() as int),
        occurrences(take_within(s, c, limit), c) <= limit,
        take_within(s, c, limit).len() < s.len() ==> {
            &&& occurrences(take_within(s, c, limit), c) == limit
            &&& s[take_within(s, c, limit).len() as int] == c
        },
    decreases s.len(),
{
    if s.len() == 0 {
    } else if s[0] != c {
        let inner = take_within(s.drop_first(), c, limit);
        lemma_take_within_longest(s.drop_first(), c, limit);
        assert((seq![s[0]] + inner).drop_first() == inner);
        assert(seq![s[0]] + inner == s.take((inner.len() + 1) as int));
    } else if limit == 0 {
        assert(Seq::<char>::empty() == s.take(0));
    } else {
        let inner = take_within(s.drop_first(), c, (limit - 1) as nat);
        lemma_take_within_longest(s.drop_first(), c, (limit - 1) as nat);
        assert((seq![s[0]] + inner).drop_first() == inner);
        assert(seq![s[0]] + inner == s.take((inner.len() + 1) as int));
    }
}

/// A text in which `c` occurs zero times does not hold `c`.
pub proof fn lemma_occurrences_zero(s: Seq<char>, c: char)
    requires
        occurrences(s, c) == 0,
    ensures
        !s.contains(c),
    decreases s.len(),
{
    if s.len() > 0 {
        lemma_occurrences_zero(s.drop_first(), c);
        assert forall|i: int| 0 <= i < s.len() implies s[i] != c by {
            if i > 0 {
                assert(s.drop_first()[i - 1] == s[i]);
            }
        }
    }
}

/// Reading on from a prefix that is still within the limit: `take_within`
/// keeps all of `head` and goes on in `tail` with what is left of the limit.
pub proof fn lemma_take_within_append(head: Seq<char>, tail: Seq<char>, c: char, limit: nat)
    requires
        occurrences(head, c) <= limit,
    ensures
        take_within(head + tail, c, limit) == head + take_within(
            tail,
            c,
            (limit - occurrences(head, c)) as nat,
        ),
    decreases head.len(),
{
    if head.len() == 0 {
        assert(head + tail == tail);
    } else {
        let whole = head + tail;
        assert(whole.drop_first() == head.drop_first() + tail);
        if head[0] != c {
            lemma_take_within_append(head.drop_first(), tail, c, limit);
        } else {
            lemma_take_within_append(head.drop_first(), tail, c, (limit - 1) as nat);
        }
        assert(seq![head[0]] + head.drop_first() == head);
    }
}

/// A text in which `c` occurs at most `limit` times is kept whole.
pub proof fn lemma_take_within_whole(s: Seq<char>, c: char, limit: nat)
    requires
        occurrences(s, c) <= limit,
    ensures
        take_within(s, c, limit) == s,
{
    lemma_take_within_append(s, Seq::empty(), c, limit);
    assert(s + Seq::<char>::empty() == s);
}

/// `occurrences` adds up over a concatenation.
pub proof fn lemma_occurrences_append(a: Seq<char>, b: Seq<char>, c: char)
    ensures
        occurrences(a + b, c) == occurrences(a, c) + occurrences(b, c),
    decreases a.len(),
{
    if a.len() == 0 {
        assert(a + b == b);
    } else {
        assert((a + b).drop_first() == a.drop_first() + b);
        lemma_occurrences_append(a.drop_first(), b, c);
    }
}

/// A text that does not hold `c` holds it zero times.
pub proof fn lemma_occurrences_none(s: Seq<char>, c: char)
    requires
        !s.contains(c),
    ensures
        occurrences(s, c) == 0,
    decreases s.len(),
{
    if s.len() > 0 {
        assert(s[0] != c);
        assert forall|i: int| 0 <= i < s.drop_first().len() implies s.drop_first()[i] != c by {
            assert(s.drop_first()[i] == s[i + 1]);
        }
        lemma_occurrences_none(s.drop_first(), c);
    }
}

/// A version of two components or more comes down to its first two
/// components, whatever follows it after a space.
///
/// The version is `major`, a dot, `minor`, and `rest`, which is empty or
/// begins with a dot; `major` and `minor` hold no dot, and the version holds no
/// space. Then both the version alone and the version followed by a space and
/// any `suffix` are normalized to `major`, a dot, and `minor`.
pub proof fn lemma_normalized_first_two_components(
    major: Seq<char>,
    minor: Seq<char>,
    rest: Seq<char>,
    suffix: Seq<char>,
)
    requires
        !major.contains('.'),
        !minor.contains('.'),
        rest.len() == 0 || rest[0] == '.',
        !major.contains(' '),
        !minor.contains(' '),
        !rest.contains(' '),
    ensures
        normalized(major + seq!['.'] + minor + rest + seq![' '] + suffix) == Some(
            major + seq!['.'] + minor,
        ),
        normalized(major + seq!['.'] + minor + rest) == Some(major + seq!['.'] + minor),
{
    let two = major + seq!['.'] + minor;
    let version = two + rest;
    // The version holds no space, so it is the token of either text.
    lemma_occurrences_none(major, ' ');
    lemma_occurrences_none(minor, ' ');
    lemma_occurrences_none(rest, ' ');
    lemma_occurrences_append(major, seq!['.'], ' ');
    lemma_occurrences_append(major + seq!['.'], minor, ' ');
    lemma_occurrences_append(two, rest, ' ');
    assert(occurrences(seq!['.'], ' ') == 0) by {
        assert(seq!['.'].drop_first() == Seq::<char>::empty());
        assert(occurrences(Seq::<char>::empty(), ' ') == 0);
    }
    lemma_take_within_whole(version, ' ', 0);
    let tail = seq![' '] + suffix;
    lemma_take_within_append(version, tail, ' ', 0);
    assert(take_within(tail, ' ', 0) == Seq::<char>::empty());
    assert(version + Seq::<char>::empty() == version);
    assert(version + tail == version + seq![' '] + suffix);
    assert(version_token(version + seq![' '] + suffix) == version);
    assert(version_token(version) == version);
    // The first two components hold one dot, and a dot follows them if
    // anything does.
    lemma_occurrences_none(major, '.');
    lemma_occurrences_none(minor, '.');
    lemma_occurrences_append(major, seq!['.'], '.');
    lemma_occurrences_append(major + seq!['.'], minor, '.');
    assert(occurrences(seq!['.'], '.') == 1) by {
        assert(seq!['.'].drop_first() == Seq::<char>::empty());
        assert(occurrences(Seq::<char>::empty(), '.') == 0);
    }
    lemma_take_within_append(two, rest, '.', 1);
    assert(take_within(rest, '.', 0) == Seq::<char>::empty());
    assert(two + Seq::<char>::empty() == two);
    assert(major_minor(version) == two);
    assert(version.len() > 0) by {
        assert(version.len() == major.len() + 1 + minor.len() + rest.len());
    }
}

/// What a normalized version looks like: it is not empty, the text begins with
/// it, it holds no space, and it holds one dot at most, so that no third
/// component and nothing of what follows the version is left in it.
pub proof fn lemma_normalized_shape(text: Seq<char>)
    requires
        normalized(text).is_some(),
    ensures
        normalized(text).unwrap().len() > 0,
        normalized(text).unwrap().is_prefix_of(text),
        !normalized(text).unwrap().contains(' '),
        occurrences(normalized(text).unwrap(), '.') <= 1,
{
    let token = version_token(text);
    let version = major_minor(token);
    lemma_take_within_longest(text, ' ', 0);
    lemma_take_within_longest(token, '.', 1);
    lemma_occurrences_zero(token, ' ');
    assert(version.is_prefix_of(text)) by {
        assert(version =~= text.take(version.len() as int));
    }
    assert forall|i: int| 0 <= i < version.len() implies version[i] != ' ' by {
        assert(version[i] == token[i]);
    }
    if version.len() == 0 {
        // An empty result of a token that is not empty would have used up the
        // limit of one dot without holding any.
        assert(occurrences(version, '.') == 0);
    }
}

/// The `major.minor` form of the version that `text` starts with.
///
/// The version is what stands before the first space of `text`; `None` is
/// returned where that is empty. Of the version, the first two dot-separated
/// components are kept; a version of fewer components is returned whole.
pub fn normalize(text: &str) -> (r: Option<String>)
    ensures
        r.is_some() == normalized(text@).is_some(),
        r.is_some() ==> r.unwrap()@ == normalized(text@).unwrap(),
{
    let token = leading(text, ' ', 0);
    if token.unicode_len() == 0 {
        None
    } else {
        Some(leading(token, '.', 1).to_owned())
    }
}

/// The longest prefix of `s` in which `c` occurs at most `limit` times.
pub fn leading<'a>(s: &'a str, c: char, limit: usize) -> (r: &'a str)
    ensures
        r@ == take_within(s@, c, limit as nat),
{
    let n = s.unicode_len();
    let mut end: usize = 0;
    let mut seen: usize = 0;
    while end < n
        invariant
            n == s@.len(),
            end <= n,
            seen <= limit,
            seen == occurrences(s@.take(end as int), c),
        decreases n - end,
    {
        let ch = s.get_char(end);
        proof {
            let head = s@.take(end as int);
            assert(s@.take(end + 1) == head + seq![ch]);
            lemma_occurrences_append(head, seq![ch], c);
            assert(occurrences(seq![ch], c) == if ch == c { 1nat } else { 0nat }) by {
                assert(seq![ch].drop_first() == Seq::<char>::empty());
                assert(occurrences(Seq::<char>::empty(), c) == 0);
            }
        }
        if ch == c {
            if seen == limit {
                proof {
                    let head = s@.take(end as int);
                    let tail = s@.skip(end as int);
                    assert(s@ == head + tail);
                    lemma_take_within_append(head, tail, c, limit as nat);
                    assert(head + Seq::<char>::empty() == head);
                }
                return s.substring_char(0, end);
            }
            seen = seen + 1;
        }
        end = end + 1;
    }
    proof {
        assert(s@.take(n as int) == s@);
        lemma_take_within_whole(s@, c, limit as nat);
    }
    s
}

} // verus!
