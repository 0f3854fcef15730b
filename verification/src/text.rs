//! Text primitives shared by the line protocol and the forms: white space,
//! tokens, decimal numbers and joined lists, each with its model on `Seq<char>`.

use vstd::prelude::*;

verus! {

/// White space as Unicode defines it (the `White_Space` property).
pub open spec fn is_whitespace(c: char) -> bool {
    let u = c as u32;
    ||| 0x09 <= u <= 0x0D
    ||| u == 0x20
    ||| u == 0x85
    ||| u == 0xA0
    ||| u == 0x1680
    ||| 0x2000 <= u <= 0x200A
    ||| u == 0x2028
    ||| u == 0x2029
    ||| u == 0x202F
    ||| u == 0x205F
    ||| u == 0x3000
}

/// Whether every character of `s` is white space (true of the empty text).
pub open spec fn is_blank(s: Seq<char>) -> bool {
    forall|i: int| 0 <= i < s.len() ==> is_whitespace(#[trigger] s[i])
}

/// The first index at or after `i` that holds no white space, or the end.
pub open spec fn skip_ws(s: Seq<char>, i: int) -> int
    decreases s.len() - i,
{
    if 0 <= i < s.len() && is_whitespace(s[i]) {
        skip_ws(s, i + 1)
    } else {
        i
    }
}

/// The first index at or after `i` that holds white space, or the end.
pub open spec fn skip_token(s: Seq<char>, i: int) -> int
    decreases s.len() - i,
{
    if 0 <= i < s.len() && !is_whitespace(s[i]) {
        skip_token(s, i + 1)
    } else {
        i
    }
}

/// The maximal runs of non-white-space characters that begin at or after `i`.
pub open spec fn tokens_from(s: Seq<char>, i: int) -> Seq<Seq<char>>
    decreases s.len() - i,
{
    let start = skip_ws(s, i);
    let end = skip_token(s, start);
    if i <= start < end <= s.len() {
        seq![s.subrange(start, end)] + tokens_from(s, end)
    } else {
        Seq::empty()
    }
}

/// The white-space separated words of `s`, in order.
pub open spec fn tokens(s: Seq<char>) -> Seq<Seq<char>> {
    tokens_from(s, 0)
}

/// The texts of a sequence of strings.
pub open spec fn texts(v: Seq<String>) -> Seq<Seq<char>> {
    Seq::new(v.len(), |i: int| v[i]@)
}

/// The value of a decimal digit, 0 for any other character.
pub open spec fn digit_value(c: char) -> nat {
    if '0' <= c <= '9' {
        (c as u32 - '0' as u32) as nat
    } else {
        0
    }
}

/// Whether `s` holds decimal digits only.
pub open spec fn is_digits(s: Seq<char>) -> bool {
    forall|i: int| 0 <= i < s.len() ==> '0' <= #[trigger] s[i] <= '9'
}

/// The number that the digits of `s` write in base ten.
pub open spec fn digits_value(s: Seq<char>) -> nat
    decreases s.len(),
{
    if s.len() == 0 {
        0
    } else {
        digits_value(s.drop_last()) * 10 + digit_value(s.last())
    }
}

/// What remains of `s` once one leading `+` is taken away.
pub open spec fn unsigned_part(s: Seq<char>) -> Seq<char> {
    if s.len() > 0 && s[0] == '+' {
        s.subrange(1, s.len() as int)
    } else {
        s
    }
}

/// The `u32` that `s` writes: an optional `+`, then one or more decimal
/// digits whose value fits. `None` for every other text.
pub open spec fn parse_u32_spec(s: Seq<char>) -> Option<u32> {
    let d = unsigned_part(s);
    if d.len() > 0 && is_digits(d) && digits_value(d) <= u32::MAX {
        Some(digits_value(d) as u32)
    } else {
        None
    }
}

/// The character that writes the digit `d`.
pub open spec fn digit_char(d: nat) -> char {
    if d == 0 {
        '0'
    } else if d == 1 {
        '1'
    } else if d == 2 {
        '2'
    } else if d == 3 {
        '3'
    } else if d == 4 {
        '4'
    } else if d == 5 {
        '5'
    } else if d == 6 {
        '6'
    } else if d == 7 {
        '7'
    } else if d == 8 {
        '8'
    } else {
        '9'
    }
}

/// `n` written in base ten without leading zeros.
pub open spec fn decimal(n: nat) -> Seq<char>
    decreases n,
{
    if n < 10 {
        seq![digit_char(n)]
    } else {
        decimal(n / 10).push(digit_char(n % 10))
    }
}

/// The parts of `parts` written one after another with `sep` between them.
pub open spec fn join_spec(parts: Seq<Seq<char>>, sep: Seq<char>) -> Seq<char>
    decreases parts.len(),
{
    if parts.len() == 0 {
        Seq::empty()
    } else if parts.len() == 1 {
        parts[0]
    } else {
        join_spec(parts.drop_last(), sep) + sep + parts.last()
    }
}

/// The pieces of `s` between the occurrences of `sep` at or after `i`, where
/// `from` is the start of the piece that `i` lies in.
pub open spec fn split_from(s: Seq<char>, sep: char, from: int, i: int) -> Seq<Seq<char>>
    decreases s.len() - i,
{
    if 0 <= from <= i < s.len() {
        if s[i] == sep {
            seq![s.subrange(from, i)] + split_from(s, sep, i + 1, i + 1)
        } else {
            split_from(s, sep, from, i + 1)
        }
    } else {
        seq![s.subrange(from, s.len() as int)]
    }
}

/// The pieces of `s` between the occurrences of `sep`: one more piece than
/// there are separators, so the empty text gives one empty piece.
pub open spec fn split_spec(s: Seq<char>, sep: char) -> Seq<Seq<char>> {
    split_from(s, sep, 0, 0)
}

/// Tells white space from other characters.
pub fn is_whitespace_char(c: char) -> (b: bool)
    ensures
        b == is_whitespace(c),
{
    let u: u32 = c as u32;
    (0x09 <= u && u <= 0x0D) || u == 0x20 || u == 0x85 || u == 0xA0 || u == 0x1680 || (0x2000 <= u
        && u <= 0x200A) || u == 0x2028 || u == 0x2029 || u == 0x202F || u == 0x205F || u == 0x3000
}

/// The characters of `s`, in order.
pub fn chars_of(s: &str) -> (v: Vec<char>)
    ensures
        v@ == s@,
{
    let mut v: Vec<char> = Vec::new();
    for c in it: s.chars()
        invariant
            v@ == it.seq().take(it.index()),
            it.seq() == s@,
    {
        v.push(c);
    }
    v
}

/// Whether `a` and `b` hold the same text.
pub fn same_text(a: &str, b: &str) -> (same: bool)
    ensures
        same == (a@ == b@),
{
    let x = chars_of(a);
    let y = chars_of(b);
    if x.len() != y.len() {
        return false;
    }
    let mut i: usize = 0;
    while i < x.len()
        invariant
            i <= x.len(),
            x.len() == y.len(),
            x@ == a@,
            y@ == b@,
            forall|j: int| 0 <= j < i ==> x@[j] == y@[j],
        decreases x.len() - i,
    {
        if x[i] != y[i] {
            return false;
        }
        i += 1;
    }
    assert(x@ =~= y@);
    true
}

/// Whether `s` is empty once white space is trimmed from both ends.
pub fn is_blank_text(s: &str) -> (blank: bool)
    ensures
        blank == is_blank(s@),
{
    let chars = chars_of(s);
    let mut i: usize = 0;
    while i < chars.len()
        invariant
            i <= chars.len(),
            chars@ == s@,
            forall|j: int| 0 <= j < i ==> is_whitespace(#[trigger] chars@[j]),
        decreases chars.len() - i,
    {
        if !is_whitespace_char(chars[i]) {
            return false;
        }
        i += 1;
    }
    true
}

fn scan_whitespace(chars: &Vec<char>, from: usize) -> (at: usize)
    requires
        from <= chars.len(),
    ensures
        at == skip_ws(chars@, from as int),
        from <= at <= chars.len(),
{
    let mut i: usize = from;
    while i < chars.len() && is_whitespace_char(chars[i])
        invariant
            from <= i <= chars.len(),
            skip_ws(chars@, from as int) == skip_ws(chars@, i as int),
        decreases chars.len() - i,
    {
        i += 1;
    }
    i
}

fn scan_token(chars: &Vec<char>, from: usize) -> (at: usize)
    requires
        from <= chars.len(),
    ensures
        at == skip_token(chars@, from as int),
        from <= at <= chars.len(),
{
    let mut i: usize = from;
    while i < chars.len() && !is_whitespace_char(chars[i])
        invariant
            from <= i <= chars.len(),
            skip_token(chars@, from as int) == skip_token(chars@, i as int),
        decreases chars.len() - i,
    {
        i += 1;
    }
    i
}

/// Splits a line into its white-space separated words.
pub fn split_whitespace(line: &str) -> (parts: Vec<String>)
    ensures
        texts(parts@) == tokens(line@),
{
    let chars = chars_of(line);
    let n = chars.len();
    let mut parts: Vec<String> = Vec::new();
    let mut i: usize = 0;
    let mut done = false;
    while !done
        invariant
            i <= n,
            n == chars.len(),
            chars@ == line@,
            done ==> tokens_from(line@, i as int) == Seq::<Seq<char>>::empty(),
            tokens(line@) == texts(parts@) + tokens_from(line@, i as int),
        decreases n - i + (if done { 0int } else { 1int }),
    {
        let start = scan_whitespace(&chars, i);
        let end = scan_token(&chars, start);
        if start < end {
            let word = line.substring_char(start, end);
            let ghost before = parts@;
            parts.push(String::from_str(word));
            proof {
                assert(texts(parts@) =~= texts(before) + seq![line@.subrange(
                    start as int,
                    end as int,
                )]);
            }
            i = end;
        } else {
            done = true;
        }
    }
    parts
}

/// A prefix of a digit text writes no larger a number than the whole text.
pub proof fn lemma_digits_value_prefix(s: Seq<char>, k: int)
    requires
        0 <= k <= s.len(),
    ensures
        digits_value(s.take(k)) <= digits_value(s),
    decreases s.len(),
{
    if k == s.len() {
        assert(s.take(k) =~= s);
    } else {
        lemma_digits_value_prefix(s.drop_last(), k);
        assert(s.drop_last().take(k) =~= s.take(k));
    }
}

fn is_digit_char(c: char) -> (b: bool)
    ensures
        b == ('0' <= c <= '9'),
{
    let u: u32 = c as u32;
    0x30 <= u && u <= 0x39
}

fn digit_of(c: char) -> (v: u32)
    requires
        '0' <= c <= '9',
    ensures
        v == digit_value(c),
        v < 10,
{
    c as u32 - 0x30
}

/// Reads a `u32` written in base ten, with an optional leading `+`.
pub fn parse_u32(s: &str) -> (r: Option<u32>)
    ensures
        r == parse_u32_spec(s@),
{
    let chars = chars_of(s);
    let n = chars.len();
    let start: usize = if n > 0 && chars[0] == '+' {
        1
    } else {
        0
    };
    let ghost d = unsigned_part(s@);
    assert(d =~= chars@.subrange(start as int, n as int));
    if start == n {
        return None;
    }
    let mut acc: u64 = 0;
    let mut i: usize = start;
    while i < n
        invariant
            start <= i <= n,
            n == chars.len(),
            chars@ == s@,
            d == unsigned_part(s@),
            d == chars@.subrange(start as int, n as int),
            is_digits(d.take(i - start)),
            acc == digits_value(d.take(i - start)),
            acc <= u32::MAX,
        decreases n - i,
    {
        let c: char = chars[i];
        if !is_digit_char(c) {
            assert(d[i - start] == c);
            return None;
        }
        let ghost next = d.take(i - start + 1);
        proof {
            assert(next.drop_last() =~= d.take(i - start));
            assert(next.last() == c);
            assert forall|j: int| 0 <= j < next.len() implies '0' <= #[trigger] next[j] <= '9' by {
                if j < i - start {
                    assert(d.take(i - start)[j] == next[j]);
                } else {
                    assert(next[j] == c);
                }
            }
        }
        acc = acc * 10 + digit_of(c) as u64;
        if acc > u32::MAX as u64 {
            proof {
                lemma_digits_value_prefix(d, i - start + 1);
            }
            return None;
        }
        i += 1;
    }
    assert(d.take(i - start) =~= d);
    Some(acc as u32)
}

fn digit_text(d: u64) -> (t: &'static str)
    requires
        d < 10,
    ensures
        t@ == seq![digit_char(d as nat)],
{
    proof {
        reveal_strlit("0");
        reveal_strlit("1");
        reveal_strlit("2");
        reveal_strlit("3");
        reveal_strlit("4");
        reveal_strlit("5");
        reveal_strlit("6");
        reveal_strlit("7");
        reveal_strlit("8");
        reveal_strlit("9");
    }
    let t = if d == 0 {
        "0"
    } else if d == 1 {
        "1"
    } else if d == 2 {
        "2"
    } else if d == 3 {
        "3"
    } else if d == 4 {
        "4"
    } else if d == 5 {
        "5"
    } else if d == 6 {
        "6"
    } else if d == 7 {
        "7"
    } else if d == 8 {
        "8"
    } else {
        "9"
    };
    assert(t@ =~= seq![digit_char(d as nat)]);
    t
}

/// Appends `n`, written in base ten, to `out`.
pub fn append_decimal(out: &mut String, n: u64)
    ensures
        final(out)@ == old(out)@ + decimal(n as nat),
    decreases n,
{
    if n >= 10 {
        append_decimal(out, n / 10);
    }
    out.append(digit_text(n % 10));
    assert(out@ =~= old(out)@ + decimal(n as nat));
}

/// `n` written in base ten.
pub fn u32_to_string(n: u32) -> (s: String)
    ensures
        s@ == decimal(n as nat),
{
    let mut s = String::new();
    append_decimal(&mut s, n as u64);
    assert(s@ =~= decimal(n as nat));
    s
}

/// Writes the parts one after another with `sep` between them.
pub fn join(parts: &Vec<String>, sep: &str) -> (s: String)
    ensures
        s@ == join_spec(texts(parts@), sep@),
{
    let mut out = String::new();
    let mut i: usize = 0;
    while i < parts.len()
        invariant
            i <= parts.len(),
            out@ == join_spec(texts(parts@).take(i as int), sep@),
        decreases parts.len() - i,
    {
        let ghost next = texts(parts@).take(i + 1);
        proof {
            assert(next.drop_last() =~= texts(parts@).take(i as int));
            assert(next.last() == parts@[i as int]@);
        }
        if i > 0 {
            out.append(sep);
        }
        out.append(parts[i].as_str());
        proof {
            if i == 0 {
                assert(out@ =~= next[0]);
            }
        }
        i += 1;
    }
    assert(texts(parts@).take(i as int) =~= texts(parts@));
    out
}

/// Cuts `s` at every occurrence of `sep`.
pub fn split_char(s: &str, sep: char) -> (parts: Vec<String>)
    ensures
        texts(parts@) == split_spec(s@, sep),
{
    let chars = chars_of(s);
    let n = chars.len();
    let mut parts: Vec<String> = Vec::new();
    let mut from: usize = 0;
    let mut i: usize = 0;
    while i < n
        invariant
            from <= i <= n,
            n == chars.len(),
            chars@ == s@,
            split_spec(s@, sep) == texts(parts@) + split_from(s@, sep, from as int, i as int),
        decreases n - i,
    {
        if chars[i] == sep {
            let piece = s.substring_char(from, i);
            let ghost before = parts@;
            parts.push(String::from_str(piece));
            proof {
                assert(texts(parts@) =~= texts(before) + seq![s@.subrange(from as int, i as int)]);
            }
            from = i + 1;
        }
        i += 1;
    }
    let piece = s.substring_char(from, n);
    let ghost before = parts@;
    parts.push(String::from_str(piece));
    proof {
        assert(texts(parts@) =~= texts(before) + seq![s@.subrange(from as int, n as int)]);
    }
    parts
}

/// Whether `s` is a word: not empty, and free of white space.
pub open spec fn is_word(s: Seq<char>) -> bool {
    s.len() > 0 && forall|i: int| 0 <= i < s.len() ==> !is_whitespace(#[trigger] s[i])
}

/// A run of characters that are not white space, ended by white space or by
/// the end of the text, is skipped as one token.
pub proof fn lemma_skip_token_run(s: Seq<char>, i: int, j: int)
    requires
        0 <= i <= j <= s.len(),
        forall|k: int| i <= k < j ==> !is_whitespace(#[trigger] s[k]),
        j == s.len() || is_whitespace(s[j]),
    ensures
        skip_token(s, i) == j,
    decreases j - i,
{
    if i < j {
        lemma_skip_token_run(s, i + 1, j);
    }
}

/// A run of white space, ended by another character or by the end of the
/// text, is skipped whole.
pub proof fn lemma_skip_ws_run(s: Seq<char>, i: int, j: int)
    requires
        0 <= i <= j <= s.len(),
        forall|k: int| i <= k < j ==> is_whitespace(#[trigger] s[k]),
        j == s.len() || !is_whitespace(s[j]),
    ensures
        skip_ws(s, i) == j,
    decreases j - i,
{
    if i < j {
        lemma_skip_ws_run(s, i + 1, j);
    }
}

/// The words of a text are the words of what follows its first word, with
/// that word put in front: where a word stands at `i`, after white space
/// only, and ends at `j`.
pub proof fn lemma_tokens_step(s: Seq<char>, from: int, i: int, j: int)
    requires
        0 <= from <= i < j <= s.len(),
        forall|k: int| from <= k < i ==> is_whitespace(#[trigger] s[k]),
        forall|k: int| i <= k < j ==> !is_whitespace(#[trigger] s[k]),
        j == s.len() || is_whitespace(s[j]),
    ensures
        tokens_from(s, from) == seq![s.subrange(i, j)] + tokens_from(s, j),
{
    lemma_skip_ws_run(s, from, i);
    lemma_skip_token_run(s, i, j);
}

/// After its last word a text has no more words.
pub proof fn lemma_tokens_end(s: Seq<char>, from: int)
    requires
        0 <= from <= s.len(),
        forall|k: int| from <= k < s.len() ==> is_whitespace(#[trigger] s[k]),
    ensures
        tokens_from(s, from) == Seq::<Seq<char>>::empty(),
{
    lemma_skip_ws_run(s, from, s.len() as int);
}

/// A text made of a word, one white space and a second word has those two
/// words.
proof fn lemma_two_tokens(s: Seq<char>, n: int)
    requires
        0 < n,
        n + 1 < s.len(),
        forall|k: int| 0 <= k < n ==> !is_whitespace(#[trigger] s[k]),
        is_whitespace(s[n]),
        forall|k: int| n + 1 <= k < s.len() ==> !is_whitespace(#[trigger] s[k]),
    ensures
        tokens(s) == seq![s.subrange(0, n), s.subrange(n + 1, s.len() as int)],
{
    let end = s.len() as int;
    lemma_tokens_step(s, 0, 0, n);
    lemma_tokens_step(s, n, n + 1, end);
    lemma_tokens_end(s, end);
    assert(seq![s.subrange(0, n)] + (seq![s.subrange(n + 1, end)] + Seq::<Seq<char>>::empty())
        =~= seq![s.subrange(0, n), s.subrange(n + 1, end)]);
}

/// A text made of three words with one white space between each two has
/// those three words.
proof fn lemma_three_tokens(s: Seq<char>, n: int, m: int)
    requires
        0 < n,
        n + 1 < m,
        m + 1 < s.len(),
        forall|k: int| 0 <= k < n ==> !is_whitespace(#[trigger] s[k]),
        is_whitespace(s[n]),
        forall|k: int| n + 1 <= k < m ==> !is_whitespace(#[trigger] s[k]),
        is_whitespace(s[m]),
        forall|k: int| m + 1 <= k < s.len() ==> !is_whitespace(#[trigger] s[k]),
    ensures
        tokens(s) == seq![
            s.subrange(0, n),
            s.subrange(n + 1, m),
            s.subrange(m + 1, s.len() as int),
        ],
{
    let end = s.len() as int;
    lemma_tokens_step(s, 0, 0, n);
    lemma_tokens_step(s, n, n + 1, m);
    lemma_tokens_step(s, m, m + 1, end);
    lemma_tokens_end(s, end);
    assert(seq![s.subrange(0, n)] + (seq![s.subrange(n + 1, m)] + (seq![
        s.subrange(m + 1, end),
    ] + Seq::<Seq<char>>::empty())) =~= seq![
        s.subrange(0, n),
        s.subrange(n + 1, m),
        s.subrange(m + 1, end),
    ]);
}

/// Two words with one space between them read back as those two words.
pub proof fn lemma_tokens_of_two_words(a: Seq<char>, b: Seq<char>)
    requires
        is_word(a),
        is_word(b),
    ensures
        tokens(a + seq![' '] + b) == seq![a, b],
{
    let s = a + seq![' '] + b;
    let n = a.len() as int;
    assert(s.len() == n + 1 + b.len());
    assert forall|k: int| 0 <= k < n implies !is_whitespace(#[trigger] s[k]) by {
        assert(s[k] == a[k]);
    }
    assert forall|k: int| n + 1 <= k < s.len() implies !is_whitespace(#[trigger] s[k]) by {
        assert(s[k] == b[k - n - 1]);
    }
    assert(s[n] == ' ');
    assert(s.subrange(0, n) =~= a);
    assert(s.subrange(n + 1, s.len() as int) =~= b);
    lemma_two_tokens(s, n);
}

/// Three words with one space between each two read back as those three.
pub proof fn lemma_tokens_of_three_words(a: Seq<char>, b: Seq<char>, c: Seq<char>)
    requires
        is_word(a),
        is_word(b),
        is_word(c),
    ensures
        tokens(a + seq![' '] + b + seq![' '] + c) == seq![a, b, c],
{
    let s = a + seq![' '] + b + seq![' '] + c;
    let n = a.len() as int;
    let m = n + 1 + b.len() as int;
    assert(s.len() == m + 1 + c.len());
    assert forall|k: int| 0 <= k < n implies !is_whitespace(#[trigger] s[k]) by {
        assert(s[k] == a[k]);
    }
    assert forall|k: int| n + 1 <= k < m implies !is_whitespace(#[trigger] s[k]) by {
        assert(s[k] == b[k - n - 1]);
    }
    assert forall|k: int| m + 1 <= k < s.len() implies !is_whitespace(#[trigger] s[k]) by {
        assert(s[k] == c[k - m - 1]);
    }
    assert(s[n] == ' ');
    assert(s[m] == ' ');
    assert(s.subrange(0, n) =~= a);
    assert(s.subrange(n + 1, m) =~= b);
    assert(s.subrange(m + 1, s.len() as int) =~= c);
    lemma_three_tokens(s, n, m);
}

/// A number written in base ten is made of digits, is not empty, and reads
/// back as the number; it is a word.
pub proof fn lemma_decimal_reads_back(n: nat)
    ensures
        decimal(n).len() > 0,
        is_digits(decimal(n)),
        digits_value(decimal(n)) == n,
        is_word(decimal(n)),
        decimal(n)[0] != '+',
    decreases n,
{
    if n < 10 {
        let d = decimal(n);
        assert(d.len() == 1);
        assert(d.drop_last() =~= Seq::<char>::empty());
        assert(digits_value(d.drop_last()) == 0);
        assert(digit_value(digit_char(n)) == n);
    } else {
        lemma_decimal_reads_back(n / 10);
        let d = decimal(n);
        let head = decimal(n / 10);
        assert(d.drop_last() =~= head);
        assert(d.last() == digit_char(n % 10));
        assert(digit_value(digit_char(n % 10)) == n % 10);
        assert forall|i: int| 0 <= i < d.len() implies '0' <= #[trigger] d[i] <= '9' by {
            if i < head.len() {
                assert(d[i] == head[i]);
            }
        }
        assert(d[0] == head[0]);
    }
    let d = decimal(n);
    assert forall|i: int| 0 <= i < d.len() implies !is_whitespace(#[trigger] d[i]) by {
        assert('0' <= d[i] <= '9');
    }
}

/// What `u32_to_string` writes, `parse_u32` reads back.
pub proof fn lemma_parse_decimal(n: u32)
    ensures
        parse_u32_spec(decimal(n as nat)) == Some(n),
{
    lemma_decimal_reads_back(n as nat);
}

/// Whether `sep` occurs nowhere in `s`.
pub open spec fn free_of(s: Seq<char>, sep: char) -> bool {
    forall|i: int| 0 <= i < s.len() ==> #[trigger] s[i] != sep
}

/// Inside a piece that holds no separator, splitting runs on to the end of
/// the piece.
proof fn lemma_split_run(s: Seq<char>, sep: char, from: int, i: int, j: int)
    requires
        0 <= from <= i <= j <= s.len(),
        forall|k: int| i <= k < j ==> #[trigger] s[k] != sep,
    ensures
        split_from(s, sep, from, i) == split_from(s, sep, from, j),
    decreases j - i,
{
    if i < j {
        lemma_split_run(s, sep, from, i + 1, j);
    }
}

/// Splitting does not look at what lies before the piece it is in.
proof fn lemma_split_suffix(s: Seq<char>, t: Seq<char>, sep: char, from: int, i: int)
    requires
        0 <= from <= i <= t.len(),
    ensures
        split_from(s + t, sep, s.len() + from, s.len() + i) == split_from(t, sep, from, i),
    decreases t.len() - i,
{
    let st = s + t;
    if i < t.len() {
        assert(st[s.len() + i] == t[i]);
        if t[i] == sep {
            lemma_split_suffix(s, t, sep, i + 1, i + 1);
            assert(st.subrange(s.len() + from, s.len() + i) =~= t.subrange(from, i));
        } else {
            lemma_split_suffix(s, t, sep, from, i + 1);
        }
    } else {
        assert(st.subrange(s.len() + from, st.len() as int) =~= t.subrange(
            from,
            t.len() as int,
        ));
    }
}

/// Splitting a text that begins with a piece free of the separator,
/// followed by the separator, gives that piece and then the pieces of the
/// rest.
proof fn lemma_split_first(head: Seq<char>, rest: Seq<char>, sep: char)
    requires
        free_of(head, sep),
    ensures
        split_spec(head + seq![sep] + rest, sep) == seq![head] + split_spec(rest, sep),
{
    let s = head + seq![sep] + rest;
    let n = head.len() as int;
    assert forall|k: int| 0 <= k < n implies #[trigger] s[k] != sep by {
        assert(s[k] == head[k]);
    }
    lemma_split_run(s, sep, 0, 0, n);
    assert(s[n] == sep);
    assert(s.subrange(0, n) =~= head);
    lemma_split_suffix(head + seq![sep], rest, sep, 0, 0);
    assert((head + seq![sep]) + rest =~= s);
}

/// A text free of the separator is one piece.
proof fn lemma_split_single(piece: Seq<char>, sep: char)
    requires
        free_of(piece, sep),
    ensures
        split_spec(piece, sep) == seq![piece],
{
    lemma_split_run(piece, sep, 0, 0, piece.len() as int);
    assert(piece.subrange(0, piece.len() as int) =~= piece);
}

/// Joining is associative enough: the first part, the separator, and the
/// rest joined.
proof fn lemma_join_first(parts: Seq<Seq<char>>, sep: Seq<char>)
    requires
        parts.len() >= 2,
    ensures
        join_spec(parts, sep) == parts[0] + sep + join_spec(parts.drop_first(), sep),
    decreases parts.len(),
{
    let rest = parts.drop_first();
    if parts.len() == 2 {
        assert(parts.drop_last() =~= seq![parts[0]]);
        assert(rest =~= seq![parts[1]]);
        assert(join_spec(parts.drop_last(), sep) == parts[0]);
        assert(join_spec(rest, sep) == parts[1]);
    } else {
        lemma_join_first(parts.drop_last(), sep);
        assert(parts.drop_last().drop_first() =~= rest.drop_last());
        assert(rest.last() == parts.last());
        assert(parts.drop_last()[0] == parts[0]);
        assert(join_spec(parts, sep) =~= parts[0] + sep + join_spec(rest, sep));
    }
}

/// What `join` writes with a one-character separator, `split_char` reads
/// back, so long as there is a part and no part holds the separator.
pub proof fn lemma_split_join(parts: Seq<Seq<char>>, sep: char)
    requires
        parts.len() > 0,
        forall|i: int| 0 <= i < parts.len() ==> free_of(#[trigger] parts[i], sep),
    ensures
        split_spec(join_spec(parts, seq![sep]), sep) == parts,
    decreases parts.len(),
{
    if parts.len() == 1 {
        lemma_split_single(parts[0], sep);
        assert(parts =~= seq![parts[0]]);
    } else {
        let rest = parts.drop_first();
        assert forall|i: int| 0 <= i < rest.len() implies free_of(#[trigger] rest[i], sep) by {
            assert(rest[i] == parts[i + 1]);
        }
        lemma_split_join(rest, sep);
        lemma_join_first(parts, seq![sep]);
        lemma_split_first(parts[0], join_spec(rest, seq![sep]), sep);
        assert(seq![parts[0]] + rest =~= parts);
    }
}

/// Joined words make a word, so long as there is one and the separator is
/// no white space.
pub proof fn lemma_join_of_words_is_word(parts: Seq<Seq<char>>, sep: char)
    requires
        parts.len() > 0,
        !is_whitespace(sep),
        forall|i: int| 0 <= i < parts.len() ==> is_word(#[trigger] parts[i]),
    ensures
        is_word(join_spec(parts, seq![sep])),
    decreases parts.len(),
{
    if parts.len() > 1 {
        let front = parts.drop_last();
        assert forall|i: int| 0 <= i < front.len() implies is_word(#[trigger] front[i]) by {
            assert(front[i] == parts[i]);
        }
        lemma_join_of_words_is_word(front, sep);
        let j = join_spec(parts, seq![sep]);
        let f = join_spec(front, seq![sep]);
        assert(is_word(parts.last()));
        assert forall|i: int| 0 <= i < j.len() implies !is_whitespace(#[trigger] j[i]) by {
            if i < f.len() {
                assert(j[i] == f[i]);
            } else if i == f.len() {
                assert(j[i] == sep);
            } else {
                assert(j[i] == parts.last()[i - f.len() - 1]);
            }
        }
    } else {
        assert(is_word(parts[0]));
    }
}

} // verus!
