use vstd::prelude::*;
use vstd::string::*;

verus! {

/// Unicode `White_Space`, the characters that `char::is_whitespace` accepts.
pub open spec fn is_space(c: char) -> bool {
    let n = c as u32;
    ||| 0x9 <= n <= 0xd
    ||| n == 0x20
    ||| n == 0x85
    ||| n == 0xa0
    ||| n == 0x1680
    ||| 0x2000 <= n <= 0x200a
    ||| n == 0x2028
    ||| n == 0x2029
    ||| n == 0x202f
    ||| n == 0x205f
    ||| n == 0x3000
}

/// The words of a text: its maximal runs of characters that are not
/// whitespace, in order (what `str::split_whitespace` yields).
pub open spec fn words(s: Seq<char>) -> Seq<Seq<char>>
    decreases s.len(),
{
    if s.len() == 0 {
        Seq::empty()
    } else {
        let prev = words(s.drop_last());
        let c = s.last();
        if is_space(c) {
            prev
        } else if s.len() >= 2 && !is_space(s[s.len() - 2]) {
            prev.update(prev.len() - 1, prev.last().push(c))
        } else {
            prev.push(seq![c])
        }
    }
}

/// Words joined by single spaces.
pub open spec fn join_words(ws: Seq<Seq<char>>) -> Seq<char>
    decreases ws.len(),
{
    if ws.len() == 0 {
        Seq::empty()
    } else if ws.len() == 1 {
        ws[0]
    } else {
        join_words(ws.drop_last()) + seq![' '] + ws.last()
    }
}

/// `p` starts with `q`.
pub open spec fn has_prefix(p: Seq<char>, q: Seq<char>) -> bool {
    q.len() <= p.len() && p.subrange(0, q.len() as int) == q
}

/// The number of bytes that the UTF-8 encoding of a character takes.
pub open spec fn utf8_len(c: char) -> nat {
    let n = c as u32;
    if n < 0x80 {
        1
    } else if n < 0x800 {
        2
    } else if n < 0x10000 {
        3
    } else {
        4
    }
}

/// The number of bytes of the UTF-8 encoding of a text (what `str::len`
/// returns).
pub open spec fn byte_len(s: Seq<char>) -> nat
    decreases s.len(),
{
    if s.len() == 0 {
        0
    } else {
        byte_len(s.drop_last()) + utf8_len(s.last())
    }
}

/// A text without its leading whitespace.
pub open spec fn trim_start(s: Seq<char>) -> Seq<char>
    decreases s.len(),
{
    if s.len() > 0 && is_space(s[0]) {
        trim_start(s.drop_first())
    } else {
        s
    }
}

/// A text without its trailing whitespace.
pub open spec fn trim_end(s: Seq<char>) -> Seq<char>
    decreases s.len(),
{
    if s.len() > 0 && is_space(s.last()) {
        trim_end(s.drop_last())
    } else {
        s
    }
}

/// A text without leading and trailing whitespace (what `str::trim` gives).
pub open spec fn trim(s: Seq<char>) -> Seq<char> {
    trim_end(trim_start(s))
}

/// The number of words that a completion of `query` must keep: the words of
/// the query, and one more if the query ends in whitespace.
pub open spec fn min_phrase_words(query: Seq<char>) -> nat {
    words(query).len() + if query.len() > 0 && is_space(query.last()) {
        1nat
    } else {
        0nat
    }
}

/// The first keyword that starts with the query and has more than `min`
/// words.
pub open spec fn first_longer_phrase(query: Seq<char>, keywords: Seq<Seq<char>>, min: nat) -> Option<
    Seq<char>,
>
    decreases keywords.len(),
{
    if keywords.len() == 0 {
        None
    } else {
        match first_longer_phrase(query, keywords.drop_last(), min) {
            Some(p) => Some(p),
            None => {
                let k = keywords.last();
                if has_prefix(k, query) && words(k).len() > min {
                    Some(k)
                } else {
                    None
                }
            },
        }
    }
}

/// Whether a keyword may stand for the query when no keyword has more words:
/// it starts with the query and is longer.
pub open spec fn is_extension(query: Seq<char>, k: Seq<char>) -> bool {
    has_prefix(k, query) && byte_len(query) < byte_len(k)
}

/// Among the keywords that extend the query, the last one whose trimmed text
/// takes the most bytes.
pub open spec fn longest_extension(query: Seq<char>, keywords: Seq<Seq<char>>) -> Option<Seq<char>>
    decreases keywords.len(),
{
    if keywords.len() == 0 {
        None
    } else {
        let prev = longest_extension(query, keywords.drop_last());
        let k = keywords.last();
        if is_extension(query, k) {
            match prev {
                Some(p) => if byte_len(trim(k)) >= byte_len(trim(p)) {
                    Some(k)
                } else {
                    Some(p)
                },
                None => Some(k),
            }
        } else {
            prev
        }
    }
}

/// The phrase that best completes `query` among `keywords`. If some keyword
/// that starts with the query has more words than the query needs, it is the
/// first such keyword cut to that many words; otherwise it is the longest
/// keyword that extends the query, or the query itself.
pub open spec fn spec_full_keyword(query: Seq<char>, keywords: Seq<Seq<char>>) -> Seq<char> {
    let min = min_phrase_words(query);
    match first_longer_phrase(query, keywords, min) {
        Some(p) => join_words(words(p).take(min as int)),
        None => match longest_extension(query, keywords) {
            Some(p) => p,
            None => query,
        },
    }
}

/// The character sequences of a list of strings.
pub open spec fn string_views(v: Seq<String>) -> Seq<Seq<char>> {
    v.map_values(|s: String| s@)
}

} // verus!

verus! {

/// Whether a character is whitespace (`char::is_whitespace`).
pub fn is_space_char(c: char) -> (b: bool)
    ensures
        b == is_space(c),
{
    let n = c as u32;
    (0x9 <= n && n <= 0xd) || n == 0x20 || n == 0x85 || n == 0xa0 || n == 0x1680 || (0x2000 <= n
        && n <= 0x200a) || n == 0x2028 || n == 0x2029 || n == 0x202f || n == 0x205f || n == 0x3000
}

/// A text has at most as many words as characters, and fewer when it ends in
/// whitespace.
pub proof fn lemma_words_len(s: Seq<char>)
    ensures
        words(s).len() <= s.len(),
        s.len() > 0 && is_space(s.last()) ==> words(s).len() < s.len(),
        s.len() > 0 && !is_space(s.last()) ==> words(s).len() > 0,
    decreases s.len(),
{
    if s.len() > 0 {
        lemma_words_len(s.drop_last());
    }
}

/// The positions of the words of `s`: for each word, the character range
/// that it covers.
pub fn word_spans(s: &str) -> (spans: Vec<(usize, usize)>)
    ensures
        spans@.len() == words(s@).len(),
        forall|j: int|
            #![trigger spans@[j]]
            #![trigger words(s@)[j]]
            0 <= j < spans@.len() ==> {
                &&& spans@[j].0 <= spans@[j].1 <= s@.len()
                &&& s@.subrange(spans@[j].0 as int, spans@[j].1 as int) == words(s@)[j]
            },
{
    let n = s.unicode_len();
    let mut spans: Vec<(usize, usize)> = Vec::new();
    let mut i: usize = 0;
    while i < n
        invariant
            n == s@.len(),
            i <= n,
            spans@.len() == words(s@.take(i as int)).len(),
            forall|j: int|
                #![trigger spans@[j]]
                #![trigger words(s@.take(i as int))[j]]
                0 <= j < spans@.len() ==> {
                    &&& spans@[j].0 <= spans@[j].1 <= i
                    &&& s@.subrange(spans@[j].0 as int, spans@[j].1 as int) == words(
                        s@.take(i as int),
                    )[j]
                },
            (i > 0 && !is_space(s@[i - 1])) ==> spans@.len() > 0 && spans@[spans@.len() - 1].1
                == i,
        decreases n - i,
    {
        let ghost prefix = s@.take(i as int);
        let ghost next = s@.take(i + 1);
        assert(next.drop_last() =~= prefix);
        let c = s.get_char(i);
        let ghost old_spans = spans@;
        proof {
            lemma_words_len(prefix);
            assert(next.last() == c);
            if i > 0 {
                assert(next[next.len() - 2] == s@[i - 1]);
                assert(prefix.last() == s@[i - 1]);
            }
        }
        if is_space_char(c) {
            proof {
                let ws = words(next);
                assert forall|j: int| 0 <= j < spans@.len() implies {
                    &&& spans@[j].0 <= spans@[j].1 <= i + 1
                    &&& s@.subrange(spans@[j].0 as int, spans@[j].1 as int) == ws[j]
                } by {
                    let wp = words(prefix)[j];
                }
            }
        } else if i > 0 && !is_space_char(s.get_char(i - 1)) {
            let last = spans.len() - 1;
            let a = spans[last].0;
            spans.set(last, (a, i + 1));
            proof {
                assert(next[next.len() - 2] == s@[i - 1]);
                let ws = words(next);
                assert forall|j: int| 0 <= j < spans@.len() implies {
                    &&& spans@[j].0 <= spans@[j].1 <= i + 1
                    &&& s@.subrange(spans@[j].0 as int, spans@[j].1 as int) == ws[j]
                } by {
                    let wp = words(prefix)[j];
                    if j == last {
                        assert(s@.subrange(a as int, i + 1) =~= s@.subrange(a as int, i as int).push(
                            c,
                        ));
                    } else {
                        assert(spans@[j] == old_spans[j]);
                    }
                }
            }
        } else {
            spans.push((i, i + 1));
            proof {
                let ws = words(next);
                assert forall|j: int| 0 <= j < spans@.len() implies {
                    &&& spans@[j].0 <= spans@[j].1 <= i + 1
                    &&& s@.subrange(spans@[j].0 as int, spans@[j].1 as int) == ws[j]
                } by {
                    if j == spans@.len() - 1 {
                        assert(s@.subrange(i as int, i + 1) =~= seq![c]);
                    } else {
                        let wp = words(prefix)[j];
                        assert(spans@[j] == old_spans[j]);
                    }
                }
            }
        }
        i = i + 1;
    }
    assert(s@.take(n as int) =~= s@);
    spans
}

} // verus!

verus! {

/// Whether `p` starts with `q` (`str::starts_with`).
pub fn starts_with(p: &str, q: &str) -> (b: bool)
    ensures
        b == has_prefix(p@, q@),
{
    let pn = p.unicode_len();
    let qn = q.unicode_len();
    if qn > pn {
        return false;
    }
    let mut i: usize = 0;
    while i < qn
        invariant
            pn == p@.len(),
            qn == q@.len(),
            qn <= pn,
            i <= qn,
            forall|j: int| 0 <= j < i ==> p@[j] == q@[j],
        decreases qn - i,
    {
        if p.get_char(i) != q.get_char(i) {
            assert(p@.subrange(0, qn as int)[i as int] != q@[i as int]);
            return false;
        }
        i = i + 1;
    }
    assert(p@.subrange(0, qn as int) =~= q@);
    true
}

/// The number of bytes of the UTF-8 encoding of a character
/// (`char::len_utf8`).
pub fn char_byte_len(c: char) -> (n: u128)
    ensures
        n == utf8_len(c),
{
    let v = c as u32;
    if v < 0x80 {
        1
    } else if v < 0x800 {
        2
    } else if v < 0x10000 {
        3
    } else {
        4
    }
}

/// The number of bytes of the characters of `s` from position `a` to `b`.
pub fn range_byte_len(s: &str, a: usize, b: usize) -> (n: u128)
    requires
        a <= b <= s@.len(),
    ensures
        n == byte_len(s@.subrange(a as int, b as int)),
{
    let mut total: u128 = 0;
    let mut j: usize = a;
    while j < b
        invariant
            a <= j <= b <= s@.len(),
            total == byte_len(s@.subrange(a as int, j as int)),
            total <= 4 * (j - a),
        decreases b - j,
    {
        let c = s.get_char(j);
        let ghost next = s@.subrange(a as int, j + 1);
        assert(next.drop_last() =~= s@.subrange(a as int, j as int));
        total = total + char_byte_len(c);
        j = j + 1;
    }
    total
}

/// Removing leading whitespace leaves the text from the first character that
/// is not whitespace.
pub proof fn lemma_trim_start(s: Seq<char>, a: int)
    requires
        0 <= a <= s.len(),
        forall|j: int| 0 <= j < a ==> is_space(#[trigger] s[j]),
        a == s.len() || !is_space(s[a]),
    ensures
        trim_start(s) == s.subrange(a, s.len() as int),
    decreases a,
{
    if a == 0 {
        assert(s.subrange(0, s.len() as int) =~= s);
    } else {
        let t = s.drop_first();
        assert forall|j: int| 0 <= j < a - 1 implies is_space(#[trigger] t[j]) by {
            assert(t[j] == s[j + 1]);
        }
        lemma_trim_start(t, a - 1);
        assert(t.subrange(a - 1, t.len() as int) =~= s.subrange(a, s.len() as int));
    }
}

/// Removing trailing whitespace leaves the text up to the last character that
/// is not whitespace.
pub proof fn lemma_trim_end(s: Seq<char>, b: int)
    requires
        0 <= b <= s.len(),
        forall|j: int| b <= j < s.len() ==> is_space(#[trigger] s[j]),
        b == 0 || !is_space(s[b - 1]),
    ensures
        trim_end(s) == s.subrange(0, b),
    decreases s.len() - b,
{
    if b == s.len() {
        assert(s.subrange(0, b) =~= s);
    } else {
        let t = s.drop_last();
        lemma_trim_end(t, b);
        assert(t.subrange(0, b) =~= s.subrange(0, b));
    }
}

/// The number of bytes of `s` without its leading and trailing whitespace
/// (`s.trim().len()`).
pub fn trimmed_byte_len(s: &str) -> (n: u128)
    ensures
        n == byte_len(trim(s@)),
{
    let n = s.unicode_len();
    let mut a: usize = 0;
    while a < n && is_space_char(s.get_char(a))
        invariant
            n == s@.len(),
            a <= n,
            forall|j: int| 0 <= j < a ==> is_space(#[trigger] s@[j]),
        decreases n - a,
    {
        a = a + 1;
    }
    let mut b: usize = n;
    while b > a && is_space_char(s.get_char(b - 1))
        invariant
            n == s@.len(),
            a <= b <= n,
            forall|j: int| b <= j < n ==> is_space(#[trigger] s@[j]),
        decreases b - a,
    {
        b = b - 1;
    }
    proof {
        lemma_trim_start(s@, a as int);
        let t = s@.subrange(a as int, n as int);
        assert forall|j: int| b - a <= j < t.len() implies is_space(#[trigger] t[j]) by {
            assert(t[j] == s@[a + j]);
        }
        if b > a {
            assert(t[b - a - 1] == s@[b - 1]);
        }
        lemma_trim_end(t, b - a);
        assert(t.subrange(0, b - a) =~= s@.subrange(a as int, b as int));
    }
    range_byte_len(s, a, b)
}

/// The first `m` words of `s`, joined by single spaces.
pub fn join_first_words(s: &str, spans: &Vec<(usize, usize)>, m: usize) -> (r: String)
    requires
        m <= spans@.len(),
        spans@.len() == words(s@).len(),
        forall|j: int|
            #![trigger spans@[j]]
            #![trigger words(s@)[j]]
            0 <= j < spans@.len() ==> {
                &&& spans@[j].0 <= spans@[j].1 <= s@.len()
                &&& s@.subrange(spans@[j].0 as int, spans@[j].1 as int) == words(s@)[j]
            },
    ensures
        r@ == join_words(words(s@).take(m as int)),
{
    let mut r = String::new();
    let mut j: usize = 0;
    while j < m
        invariant
            m <= spans@.len(),
            spans@.len() == words(s@).len(),
            forall|k: int|
                #![trigger spans@[k]]
                #![trigger words(s@)[k]]
                0 <= k < spans@.len() ==> {
                    &&& spans@[k].0 <= spans@[k].1 <= s@.len()
                    &&& s@.subrange(spans@[k].0 as int, spans@[k].1 as int) == words(s@)[k]
                },
            j <= m,
            r@ == join_words(words(s@).take(j as int)),
        decreases m - j,
    {
        let ghost ws = words(s@);
        let ghost next = ws.take(j + 1);
        assert(next.drop_last() =~= ws.take(j as int));
        assert(next.last() == ws[j as int]);
        let (a, b) = spans[j];
        let w = s.substring_char(a, b);
        if j > 0 {
            let space = " ";
            proof {
                reveal_strlit(" ");
            }
            r.append(space);
        }
        r.append(w);
        proof {
            if j == 0 {
                assert(r@ =~= next[0]);
            } else {
                assert(r@ =~= join_words(ws.take(j as int)) + seq![' '] + ws[j as int]);
            }
        }
        j = j + 1;
    }
    r
}

} // verus!

verus! {

/// Once some prefix of the keywords holds a phrase with more words than
/// needed, that phrase is the first one of all the keywords.
pub proof fn lemma_first_longer_phrase_prefix(
    query: Seq<char>,
    keywords: Seq<Seq<char>>,
    min: nat,
    j: int,
)
    requires
        0 <= j <= keywords.len(),
        first_longer_phrase(query, keywords.take(j), min) is Some,
    ensures
        first_longer_phrase(query, keywords, min) == first_longer_phrase(
            query,
            keywords.take(j),
            min,
        ),
    decreases keywords.len() - j,
{
    if j == keywords.len() {
        assert(keywords.take(j) =~= keywords);
    } else {
        let d = keywords.drop_last();
        assert(d.take(j) =~= keywords.take(j));
        lemma_first_longer_phrase_prefix(query, d, min, j);
    }
}

/// Returns the phrase among `keywords` that best completes `query`: the
/// first keyword that starts with the query and has more words than the
/// query needs, cut to that many words; failing that, the longest keyword
/// that extends the query; failing that, the query itself.
pub fn full_keyword(query: &str, keywords: &[String]) -> (r: String)
    ensures
        r@ == spec_full_keyword(query@, string_views(keywords@)),
{
    let ghost kvs = string_views(keywords@);
    let qn = query.unicode_len();
    let qspans = word_spans(query);
    proof {
        lemma_words_len(query@);
    }
    let min: usize = if qn > 0 && is_space_char(query.get_char(qn - 1)) {
        qspans.len() + 1
    } else {
        qspans.len()
    };
    let mut i: usize = 0;
    while i < keywords.len()
        invariant
            i <= keywords@.len(),
            kvs == string_views(keywords@),
            min == min_phrase_words(query@),
            first_longer_phrase(query@, kvs.take(i as int), min as nat) is None,
        decreases keywords.len() - i,
    {
        let k = keywords[i].as_str();
        proof {
            assert(kvs.take(i + 1).drop_last() =~= kvs.take(i as int));
            assert(kvs[i as int] == keywords@[i as int]@);
        }
        if starts_with(k, query) {
            let kspans = word_spans(k);
            if kspans.len() > min {
                proof {
                    lemma_first_longer_phrase_prefix(query@, kvs, min as nat, i + 1);
                }
                return join_first_words(k, &kspans, min);
            }
        }
        i = i + 1;
    }
    proof {
        assert(kvs.take(keywords@.len() as int) =~= kvs);
        assert(query@.subrange(0, qn as int) =~= query@);
    }
    let query_bytes = range_byte_len(query, 0, qn);
    let mut best: Option<usize> = None;
    let mut best_key: u128 = 0;
    let mut i: usize = 0;
    while i < keywords.len()
        invariant
            i <= keywords@.len(),
            kvs == string_views(keywords@),
            query_bytes == byte_len(query@),
            match best {
                None => longest_extension(query@, kvs.take(i as int)) is None,
                Some(b) => {
                    &&& b < i
                    &&& longest_extension(query@, kvs.take(i as int)) == Some(kvs[b as int])
                    &&& best_key == byte_len(trim(kvs[b as int]))
                },
            },
        decreases keywords.len() - i,
    {
        let k = keywords[i].as_str();
        proof {
            assert(kvs.take(i + 1).drop_last() =~= kvs.take(i as int));
            assert(kvs[i as int] == keywords@[i as int]@);
            assert(k@.subrange(0, k@.len() as int) =~= k@);
        }
        let kn = k.unicode_len();
        if starts_with(k, query) && query_bytes < range_byte_len(k, 0, kn) {
            let key = trimmed_byte_len(k);
            match best {
                None => {
                    best = Some(i);
                    best_key = key;
                },
                Some(_) => {
                    if key >= best_key {
                        best = Some(i);
                        best_key = key;
                    }
                },
            }
        }
        i = i + 1;
    }
    proof {
        assert(kvs.take(keywords@.len() as int) =~= kvs);
    }
    match best {
        Some(b) => {
            proof {
                assert(kvs[b as int] == keywords@[b as int]@);
            }
            keywords[b].clone()
        },
        None => query.to_owned(),
    }
}

} // verus!

verus! {

/// When no keyword starts with the query, the query is its own full keyword.
pub proof fn lemma_full_keyword_without_match(query: Seq<char>, keywords: Seq<Seq<char>>)
    requires
        forall|i: int| 0 <= i < keywords.len() ==> !has_prefix(#[trigger] keywords[i], query),
    ensures
        spec_full_keyword(query, keywords) == query,
    decreases keywords.len(),
{
    lemma_no_match_finds_nothing(query, keywords, min_phrase_words(query));
}

proof fn lemma_no_match_finds_nothing(query: Seq<char>, keywords: Seq<Seq<char>>, min: nat)
    requires
        forall|i: int| 0 <= i < keywords.len() ==> !has_prefix(#[trigger] keywords[i], query),
    ensures
        first_longer_phrase(query, keywords, min) is None,
        longest_extension(query, keywords) is None,
    decreases keywords.len(),
{
    if keywords.len() > 0 {
        let d = keywords.drop_last();
        assert forall|i: int| 0 <= i < d.len() implies !has_prefix(#[trigger] d[i], query) by {
            assert(d[i] == keywords[i]);
        }
        lemma_no_match_finds_nothing(query, d, min);
        assert(!has_prefix(keywords[keywords.len() - 1], query));
    }
}

} // verus!

verus! {

/// Whether `k` qualifies for the first heuristic: it starts with the query
/// and has more than `min` words.
pub open spec fn is_longer_phrase(query: Seq<char>, k: Seq<char>, min: nat) -> bool {
    has_prefix(k, query) && words(k).len() > min
}

proof fn lemma_first_longer_phrase_none(query: Seq<char>, keywords: Seq<Seq<char>>, min: nat)
    requires
        forall|i: int| 0 <= i < keywords.len() ==> !is_longer_phrase(query, #[trigger] keywords[i], min),
    ensures
        first_longer_phrase(query, keywords, min) is None,
    decreases keywords.len(),
{
    if keywords.len() > 0 {
        let d = keywords.drop_last();
        assert forall|i: int| 0 <= i < d.len() implies !is_longer_phrase(query, #[trigger] d[i], min) by {
            assert(d[i] == keywords[i]);
        }
        lemma_first_longer_phrase_none(query, d, min);
        assert(!is_longer_phrase(query, keywords[keywords.len() - 1], min));
    }
}

proof fn lemma_first_longer_phrase_some(query: Seq<char>, keywords: Seq<Seq<char>>, min: nat, i: int)
    requires
        0 <= i < keywords.len(),
        is_longer_phrase(query, keywords[i], min),
        forall|j: int| 0 <= j < i ==> !is_longer_phrase(query, #[trigger] keywords[j], min),
    ensures
        first_longer_phrase(query, keywords, min) == Some(keywords[i]),
    decreases keywords.len(),
{
    let d = keywords.drop_last();
    if i == keywords.len() - 1 {
        assert forall|j: int| 0 <= j < d.len() implies !is_longer_phrase(query, #[trigger] d[j], min) by {
            assert(d[j] == keywords[j]);
        }
        lemma_first_longer_phrase_none(query, d, min);
    } else {
        assert forall|j: int| 0 <= j < i implies !is_longer_phrase(query, #[trigger] d[j], min) by {
            assert(d[j] == keywords[j]);
        }
        assert(d[i] == keywords[i]);
        lemma_first_longer_phrase_some(query, d, min, i);
    }
}

proof fn lemma_longest_extension(query: Seq<char>, keywords: Seq<Seq<char>>)
    ensures
        longest_extension(query, keywords) is None <==> forall|i: int|
            0 <= i < keywords.len() ==> !is_extension(query, #[trigger] keywords[i]),
        longest_extension(query, keywords) matches Some(p) ==> {
            &&& is_extension(query, p)
            &&& keywords.contains(p)
            &&& forall|i: int|
                0 <= i < keywords.len() && is_extension(query, #[trigger] keywords[i]) ==> byte_len(
                    trim(keywords[i]),
                ) <= byte_len(trim(p))
        },
    decreases keywords.len(),
{
    if keywords.len() > 0 {
        let d = keywords.drop_last();
        lemma_longest_extension(query, d);
        let last = keywords.len() - 1;
        assert forall|i: int| 0 <= i < d.len() implies d[i] == keywords[i] by {}
        if let Some(p) = longest_extension(query, d) {
            let j = choose|j: int| 0 <= j < d.len() && d[j] == p;
            assert(keywords[j] == p);
        }
        assert(keywords[last] == keywords.last());
    }
}

/// The first heuristic: when some keyword starts with the query and has more
/// words than the query needs, the full keyword is the first such keyword
/// cut to that many words.
pub proof fn law_full_keyword_longer_phrase(query: Seq<char>, keywords: Seq<Seq<char>>, i: int)
    requires
        0 <= i < keywords.len(),
        has_prefix(keywords[i], query),
        words(keywords[i]).len() > min_phrase_words(query),
        forall|j: int|
            0 <= j < i ==> !(has_prefix(#[trigger] keywords[j], query) && words(keywords[j]).len()
                > min_phrase_words(query)),
    ensures
        spec_full_keyword(query, keywords) == join_words(
            words(keywords[i]).take(min_phrase_words(query) as int),
        ),
{
    lemma_first_longer_phrase_some(query, keywords, min_phrase_words(query), i);
}

/// The fallback: when no keyword that starts with the query has more words
/// than the query needs, but some keyword extends the query, the full
/// keyword is one of the keywords, extends the query, and no extension of
/// the query has a longer trimmed text (in bytes).
pub proof fn law_full_keyword_longest_extension(query: Seq<char>, keywords: Seq<Seq<char>>, e: int)
    requires
        forall|j: int|
            0 <= j < keywords.len() && has_prefix(#[trigger] keywords[j], query) ==> words(
                keywords[j],
            ).len() <= min_phrase_words(query),
        0 <= e < keywords.len(),
        has_prefix(keywords[e], query),
        byte_len(query) < byte_len(keywords[e]),
    ensures
        keywords.contains(spec_full_keyword(query, keywords)),
        has_prefix(spec_full_keyword(query, keywords), query),
        byte_len(query) < byte_len(spec_full_keyword(query, keywords)),
        forall|j: int|
            0 <= j < keywords.len() && has_prefix(#[trigger] keywords[j], query) && byte_len(query)
                < byte_len(keywords[j]) ==> byte_len(trim(keywords[j])) <= byte_len(
                trim(spec_full_keyword(query, keywords)),
            ),
{
    let min = min_phrase_words(query);
    assert forall|j: int| 0 <= j < keywords.len() implies !is_longer_phrase(query, #[trigger] keywords[j], min) by {
        if has_prefix(keywords[j], query) {
        }
    }
    lemma_first_longer_phrase_none(query, keywords, min);
    lemma_longest_extension(query, keywords);
    assert(is_extension(query, keywords[e]));
}

/// When no keyword extends the query and none has more words than the query
/// needs, the query is its own full keyword.
pub proof fn law_full_keyword_no_extension(query: Seq<char>, keywords: Seq<Seq<char>>)
    requires
        forall|j: int|
            0 <= j < keywords.len() && has_prefix(#[trigger] keywords[j], query) ==> words(
                keywords[j],
            ).len() <= min_phrase_words(query) && byte_len(keywords[j]) <= byte_len(query),
    ensures
        spec_full_keyword(query, keywords) == query,
{
    let min = min_phrase_words(query);
    assert forall|j: int| 0 <= j < keywords.len() implies !is_longer_phrase(query, #[trigger] keywords[j], min) by {
        if has_prefix(keywords[j], query) {
        }
    }
    lemma_first_longer_phrase_none(query, keywords, min);
    lemma_longest_extension(query, keywords);
}

} // verus!
