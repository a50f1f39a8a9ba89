//! Character-level text handling shared by the parsers: whitespace, words,
//! lines and trimming, each stated over `Seq<char>`.

use vstd::prelude::*;

verus! {

/// Whether `c` has the Unicode `White_Space` property, the set that
/// `char::is_whitespace` tests.
pub open spec fn is_space(c: char) -> bool {
    let v = c as u32;
    ||| 0x09 <= v <= 0x0D
    ||| v == 0x20 || v == 0x85 || v == 0xA0 || v == 0x1680
    ||| 0x2000 <= v <= 0x200A
    ||| v == 0x2028 || v == 0x2029 || v == 0x202F || v == 0x205F || v == 0x3000
}

/// Executable test for [`is_space`].
pub fn char_is_space(c: char) -> (r: bool)
    ensures
        r == is_space(c),
{
    let v = c as u32;
    (0x09 <= v && v <= 0x0D) || v == 0x20 || v == 0x85 || v == 0xA0 || v == 0x1680 || (0x2000
        <= v && v <= 0x200A) || v == 0x2028 || v == 0x2029 || v == 0x202F || v == 0x205F || v
        == 0x3000
}

/// The characters of `s`, in order.
pub fn chars_of(s: &str) -> (v: Vec<char>)
    ensures
        v@ == s@,
{
    let mut v: Vec<char> = Vec::new();
    for c in it: s.chars()
        invariant
            v@ == it.history(),
    {
        v.push(c);
    }
    v
}


/// `String::push`: appends the character `c` to the end of `s`.
#[verifier::external_body]
pub fn push_char(s: &mut String, c: char)
    ensures
        final(s)@ == old(s)@.push(c),
{
    s.push(c)
}

/// The view of each string of a sequence.
pub open spec fn strings_view(v: Seq<String>) -> Seq<Seq<char>> {
    v.map_values(|s: String| s@)
}

/// Number of characters before the first whitespace character of `s`
/// (all of `s` when it holds none).
pub open spec fn word_len(s: Seq<char>) -> nat
    decreases s.len(),
{
    if s.len() == 0 || is_space(s[0]) {
        0
    } else {
        1 + word_len(s.drop_first())
    }
}

/// Number of characters before the first `'\n'` of `s` (all of `s` when
/// it holds none).
pub open spec fn line_len(s: Seq<char>) -> nat
    decreases s.len(),
{
    if s.len() == 0 || s[0] == '\n' {
        0
    } else {
        1 + line_len(s.drop_first())
    }
}

pub proof fn lemma_word_len_bound(s: Seq<char>)
    ensures
        word_len(s) <= s.len(),
        s.len() > 0 && !is_space(s[0]) ==> word_len(s) >= 1,
    decreases s.len(),
{
    if s.len() > 0 && !is_space(s[0]) {
        lemma_word_len_bound(s.drop_first());
    }
}

pub proof fn lemma_line_len_bound(s: Seq<char>)
    ensures
        line_len(s) <= s.len(),
    decreases s.len(),
{
    if s.len() > 0 && s[0] != '\n' {
        lemma_line_len_bound(s.drop_first());
    }
}

/// `word_len` is the position of the first whitespace character.
pub proof fn lemma_word_len_at(s: Seq<char>, n: int)
    requires
        0 <= n <= s.len(),
        forall|i: int| 0 <= i < n ==> !is_space(#[trigger] s[i]),
        n == s.len() || is_space(s[n]),
    ensures
        word_len(s) == n,
    decreases n,
{
    if n > 0 {
        let t = s.drop_first();
        assert forall|i: int| 0 <= i < n - 1 implies !is_space(#[trigger] t[i]) by {
            assert(t[i] == s[i + 1]);
        }
        if n < s.len() {
            assert(t[n - 1] == s[n]);
        }
        lemma_word_len_at(t, n - 1);
    }
}

/// `line_len` is the position of the first `'\n'`.
pub proof fn lemma_line_len_at(s: Seq<char>, n: int)
    requires
        0 <= n <= s.len(),
        forall|i: int| 0 <= i < n ==> #[trigger] s[i] != '\n',
        n == s.len() || s[n] == '\n',
    ensures
        line_len(s) == n,
    decreases n,
{
    if n > 0 {
        let t = s.drop_first();
        assert forall|i: int| 0 <= i < n - 1 implies #[trigger] t[i] != '\n' by {
            assert(t[i] == s[i + 1]);
        }
        if n < s.len() {
            assert(t[n - 1] == s[n]);
        }
        lemma_line_len_at(t, n - 1);
    }
}

/// The maximal runs of non-whitespace characters of `s`, in order: the
/// words that `str::split_whitespace` yields.
pub open spec fn words(s: Seq<char>) -> Seq<Seq<char>>
    decreases s.len(),
{
    if s.len() == 0 {
        seq![]
    } else if is_space(s[0]) {
        words(s.drop_first())
    } else {
        proof {
            lemma_word_len_bound(s);
        }
        seq![s.take(word_len(s) as int)] + words(s.skip(word_len(s) as int))
    }
}

/// The lines of `s`: the pieces between `'\n'` characters, without the
/// final piece when `s` ends with `'\n'` (and none for empty `s`), as
/// `str::lines` yields them apart from a `'\r'` before the `'\n'`, which
/// stays at the end of its line.
pub open spec fn lines(s: Seq<char>) -> Seq<Seq<char>>
    decreases s.len(),
{
    if s.len() == 0 {
        seq![]
    } else {
        proof {
            lemma_line_len_bound(s);
        }
        if line_len(s) == s.len() {
            seq![s]
        } else {
            seq![s.take(line_len(s) as int)] + lines(s.skip(line_len(s) + 1int))
        }
    }
}

/// The words of `ws` joined with single spaces.
pub open spec fn join_words(ws: Seq<Seq<char>>) -> Seq<char>
    decreases ws.len(),
{
    if ws.len() == 0 {
        seq![]
    } else if ws.len() == 1 {
        ws[0]
    } else {
        join_words(ws.drop_last()) + seq![' '] + ws.last()
    }
}

/// The words of `chars[start..end]`, each as a `String`.
pub fn split_words(chars: &Vec<char>, start: usize, end: usize) -> (ws: Vec<String>)
    requires
        start <= end <= chars.len(),
    ensures
        strings_view(ws@) == words(chars@.subrange(start as int, end as int)),
{
    let mut ws: Vec<String> = Vec::new();
    let mut j = start;
    assert(strings_view(ws@) + words(chars@.subrange(start as int, end as int)) =~= words(
        chars@.subrange(start as int, end as int),
    ));
    while j < end
        invariant
            start <= j <= end <= chars.len(),
            words(chars@.subrange(start as int, end as int)) == strings_view(ws@) + words(
                chars@.subrange(j as int, end as int),
            ),
        decreases end - j,
    {
        let ghost t = chars@.subrange(j as int, end as int);
        if char_is_space(chars[j]) {
            assert(t.drop_first() =~= chars@.subrange(j + 1, end as int));
            j += 1;
        } else {
            let mut w = String::new();
            let mut k = j;
            while k < end && !char_is_space(chars[k])
                invariant
                    j <= k <= end <= chars.len(),
                    w@ == chars@.subrange(j as int, k as int),
                    forall|m: int| j <= m < k ==> !is_space(#[trigger] chars@[m]),
                decreases end - k,
            {
                push_char(&mut w, chars[k]);
                assert(w@ =~= chars@.subrange(j as int, k + 1));
                k += 1;
            }
            proof {
                assert forall|i: int| 0 <= i < k - j implies !is_space(#[trigger] t[i]) by {
                    assert(t[i] == chars@[j + i]);
                }
                if k < end {
                    assert(t[k - j] == chars@[k as int]);
                }
                lemma_word_len_at(t, k - j);
                assert(t.take(k - j) =~= chars@.subrange(j as int, k as int));
                assert(t.skip(k - j) =~= chars@.subrange(k as int, end as int));
            }
            let ghost before = strings_view(ws@);
            ws.push(w);
            assert(strings_view(ws@) =~= before.push(chars@.subrange(j as int, k as int)));
            assert(before + words(t) =~= strings_view(ws@) + words(
                chars@.subrange(k as int, end as int),
            ));
            j = k;
        }
    }
    assert(chars@.subrange(end as int, end as int) =~= Seq::<char>::empty());
    assert(strings_view(ws@) + seq![] =~= strings_view(ws@));
    ws
}

/// The words `ws[from..]` joined with single spaces.
pub fn join_from(ws: &Vec<String>, from: usize) -> (res: String)
    requires
        from <= ws.len(),
    ensures
        res@ == join_words(strings_view(ws@).skip(from as int)),
{
    let ghost v = strings_view(ws@);
    let mut res = String::new();
    let mut i = from;
    assert(v.subrange(from as int, from as int) =~= Seq::<Seq<char>>::empty());
    while i < ws.len()
        invariant
            from <= i <= ws.len(),
            v == strings_view(ws@),
            res@ == join_words(v.subrange(from as int, i as int)),
        decreases ws.len() - i,
    {
        let ghost sub = v.subrange(from as int, i + 1);
        assert(sub.drop_last() =~= v.subrange(from as int, i as int));
        if i > from {
            push_char(&mut res, ' ');
        }
        res.append(ws[i].as_str());
        assert(res@ =~= join_words(sub));
        i += 1;
    }
    assert(v.subrange(from as int, ws.len() as int) =~= v.skip(from as int));
    res
}


/// `s` without its leading whitespace.
pub open spec fn trim_start(s: Seq<char>) -> Seq<char>
    decreases s.len(),
{
    if s.len() > 0 && is_space(s[0]) {
        trim_start(s.drop_first())
    } else {
        s
    }
}

/// `s` without its trailing whitespace.
pub open spec fn trim_end(s: Seq<char>) -> Seq<char>
    decreases s.len(),
{
    if s.len() > 0 && is_space(s.last()) {
        trim_end(s.drop_last())
    } else {
        s
    }
}

/// `s` without leading and trailing whitespace, as `str::trim` gives it.
pub open spec fn trim(s: Seq<char>) -> Seq<char> {
    trim_end(trim_start(s))
}

proof fn lemma_trim_start_at(s: Seq<char>, a: int)
    requires
        0 <= a <= s.len(),
        forall|i: int| 0 <= i < a ==> is_space(#[trigger] s[i]),
        a == s.len() || !is_space(s[a]),
    ensures
        trim_start(s) == s.skip(a),
    decreases a,
{
    if a == 0 {
        assert(s.skip(0) =~= s);
    } else {
        let t = s.drop_first();
        assert forall|i: int| 0 <= i < a - 1 implies is_space(#[trigger] t[i]) by {
            assert(t[i] == s[i + 1]);
        }
        if a < s.len() {
            assert(t[a - 1] == s[a]);
        }
        lemma_trim_start_at(t, a - 1);
        assert(t.skip(a - 1) =~= s.skip(a));
    }
}

proof fn lemma_trim_end_at(s: Seq<char>, b: int)
    requires
        0 <= b <= s.len(),
        forall|i: int| b <= i < s.len() ==> is_space(#[trigger] s[i]),
        b == 0 || !is_space(s[b - 1]),
    ensures
        trim_end(s) == s.take(b),
    decreases s.len() - b,
{
    if b == s.len() {
        assert(s.take(b) =~= s);
    } else {
        let t = s.drop_last();
        assert forall|i: int| b <= i < t.len() implies is_space(#[trigger] t[i]) by {
            assert(t[i] == s[i]);
        }
        if b > 0 {
            assert(t[b - 1] == s[b - 1]);
        }
        lemma_trim_end_at(t, b);
        assert(t.take(b) =~= s.take(b));
    }
}

/// The characters `chars[a..b]` as a `String`.
pub fn string_of(chars: &Vec<char>, a: usize, b: usize) -> (res: String)
    requires
        a <= b <= chars.len(),
    ensures
        res@ == chars@.subrange(a as int, b as int),
{
    let mut res = String::new();
    let mut k = a;
    while k < b
        invariant
            a <= k <= b <= chars.len(),
            res@ == chars@.subrange(a as int, k as int),
        decreases b - k,
    {
        push_char(&mut res, chars[k]);
        assert(res@ =~= chars@.subrange(a as int, k + 1));
        k += 1;
    }
    res
}

/// `s` without leading and trailing whitespace.
pub fn trim_str(s: &str) -> (res: String)
    ensures
        res@ == trim(s@),
{
    let chars = chars_of(s);
    let n = chars.len();
    let mut a: usize = 0;
    while a < n && char_is_space(chars[a])
        invariant
            a <= n == chars.len(),
            forall|i: int| 0 <= i < a ==> is_space(#[trigger] chars@[i]),
        decreases n - a,
    {
        a += 1;
    }
    let mut b: usize = n;
    while b > a && char_is_space(chars[b - 1])
        invariant
            a <= b <= n == chars.len(),
            forall|i: int| b <= i < n ==> is_space(#[trigger] chars@[i]),
        decreases b,
    {
        b -= 1;
    }
    proof {
        lemma_trim_start_at(chars@, a as int);
        let t = chars@.skip(a as int);
        assert forall|i: int| b - a <= i < t.len() implies is_space(#[trigger] t[i]) by {
            assert(t[i] == chars@[a + i]);
        }
        if b > a {
            assert(t[b - a - 1] == chars@[b - 1]);
        }
        lemma_trim_end_at(t, b - a);
        assert(t.take(b - a) =~= chars@.subrange(a as int, b as int));
    }
    string_of(&chars, a, b)
}


/// Whether `s` ends with `suffix`.
pub fn ends_with(s: &str, suffix: &str) -> (r: bool)
    ensures
        r == suffix@.is_suffix_of(s@),
{
    let a = chars_of(s);
    let b = chars_of(suffix);
    if b.len() > a.len() {
        return false;
    }
    let off = a.len() - b.len();
    let mut i: usize = 0;
    while i < b.len()
        invariant
            a@ == s@,
            b@ == suffix@,
            off == a.len() - b.len(),
            i <= b.len(),
            forall|j: int| 0 <= j < i ==> #[trigger] b@[j] == a@[off + j],
        decreases b.len() - i,
    {
        if a[off + i] != b[i] {
            assert(b@[i as int] != a@.subrange(off as int, a@.len() as int)[i as int]);
            return false;
        }
        i += 1;
    }
    assert(b@ =~= a@.subrange(off as int, a@.len() as int));
    true
}


/// `line_len(s)` characters hold no `'\n'`, and a `'\n'` follows them
/// unless they are all of `s`.
pub proof fn lemma_line_len_props(s: Seq<char>)
    ensures
        line_len(s) <= s.len(),
        forall|i: int| 0 <= i < line_len(s) ==> #[trigger] s[i] != '\n',
        line_len(s) < s.len() ==> s[line_len(s) as int] == '\n',
    decreases s.len(),
{
    if s.len() > 0 && s[0] != '\n' {
        let t = s.drop_first();
        lemma_line_len_props(t);
        assert forall|i: int| 0 <= i < line_len(s) implies #[trigger] s[i] != '\n' by {
            if i > 0 {
                assert(s[i] == t[i - 1]);
            }
        }
        if line_len(s) < s.len() {
            assert(s[line_len(s) as int] == t[line_len(t) as int]);
        }
    }
}

/// `word_len(s)` characters hold no whitespace.
pub proof fn lemma_word_len_props(s: Seq<char>)
    ensures
        word_len(s) <= s.len(),
        forall|i: int| 0 <= i < word_len(s) ==> !is_space(#[trigger] s[i]),
        word_len(s) < s.len() ==> is_space(s[word_len(s) as int]),
    decreases s.len(),
{
    if s.len() > 0 && !is_space(s[0]) {
        let t = s.drop_first();
        lemma_word_len_props(t);
        assert forall|i: int| 0 <= i < word_len(s) implies !is_space(#[trigger] s[i]) by {
            if i > 0 {
                assert(s[i] == t[i - 1]);
            }
        }
        if word_len(s) < s.len() {
            assert(s[word_len(s) as int] == t[word_len(t) as int]);
        }
    }
}

/// Whether `s` is a non-empty run of non-whitespace characters.
pub open spec fn is_token(s: Seq<char>) -> bool {
    s.len() > 0 && forall|i: int| 0 <= i < s.len() ==> !is_space(#[trigger] s[i])
}

/// Whether `s` is a non-empty run of whitespace other than `'\n'`.
pub open spec fn is_gap(s: Seq<char>) -> bool {
    s.len() > 0 && forall|i: int| 0 <= i < s.len() ==> is_space(#[trigger] s[i]) && s[i] != '\n'
}

/// Leading whitespace does not change the words.
pub proof fn lemma_words_skip_spaces(g: Seq<char>, r: Seq<char>)
    requires
        forall|i: int| 0 <= i < g.len() ==> is_space(#[trigger] g[i]),
    ensures
        words(g + r) == words(r),
    decreases g.len(),
{
    if g.len() > 0 {
        let s = g + r;
        assert(s[0] == g[0]);
        assert(s.drop_first() =~= g.drop_first() + r);
        let g2 = g.drop_first();
        assert forall|i: int| 0 <= i < g2.len() implies is_space(#[trigger] g2[i]) by {
            assert(g2[i] == g[i + 1]);
        }
        lemma_words_skip_spaces(g2, r);
    } else {
        assert(g + r =~= r);
    }
}

/// A token followed by whitespace is the first word.
pub proof fn lemma_words_token_gap(x: Seq<char>, g: Seq<char>, r: Seq<char>)
    requires
        is_token(x),
        g.len() > 0,
        forall|i: int| 0 <= i < g.len() ==> is_space(#[trigger] g[i]),
    ensures
        words(x + g + r) == seq![x] + words(r),
{
    let s = x + g + r;
    assert forall|i: int| 0 <= i < x.len() implies !is_space(#[trigger] s[i]) by {
        assert(s[i] == x[i]);
    }
    assert(s[x.len() as int] == g[0]);
    lemma_word_len_at(s, x.len() as int);
    assert(s[0] == x[0]);
    assert(s.take(x.len() as int) =~= x);
    assert(s.skip(x.len() as int) =~= g + r);
    lemma_words_skip_spaces(g, r);
}

/// No word holds whitespace.
pub proof fn lemma_words_are_tokens(s: Seq<char>)
    ensures
        forall|k: int| 0 <= k < words(s).len() ==> is_token(#[trigger] words(s)[k]),
    decreases s.len(),
{
    if s.len() > 0 {
        if is_space(s[0]) {
            lemma_words_are_tokens(s.drop_first());
            assert(words(s) == words(s.drop_first()));
        } else {
            lemma_word_len_props(s);
            lemma_word_len_bound(s);
            let n = word_len(s) as int;
            let w = s.take(n);
            lemma_words_are_tokens(s.skip(n));
            assert(words(s) == seq![w] + words(s.skip(n)));
            assert forall|k: int| 0 <= k < words(s).len() implies is_token(#[trigger] words(s)[k]) by {
                if k == 0 {
                    assert(words(s)[0] == w);
                    assert forall|i: int| 0 <= i < w.len() implies !is_space(#[trigger] w[i]) by {
                        assert(w[i] == s[i]);
                    }
                } else {
                    assert(words(s)[k] == words(s.skip(n))[k - 1]);
                }
            }
        }
    }
}

/// Words joined by single spaces hold no `'\n'` when the words hold none.
pub proof fn lemma_join_no_newline(ws: Seq<Seq<char>>)
    requires
        forall|k: int| 0 <= k < ws.len() ==> is_token(#[trigger] ws[k]),
    ensures
        forall|i: int| 0 <= i < join_words(ws).len() ==> #[trigger] join_words(ws)[i] != '\n',
    decreases ws.len(),
{
    if ws.len() == 1 {
        assert(is_token(ws[0]));
    } else if ws.len() > 1 {
        let init = ws.drop_last();
        assert forall|k: int| 0 <= k < init.len() implies is_token(#[trigger] init[k]) by {
            assert(init[k] == ws[k]);
        }
        lemma_join_no_newline(init);
        let j = join_words(init);
        let last = ws.last();
        assert(is_token(ws[ws.len() - 1]));
        let full = j + seq![' '] + last;
        assert(join_words(ws) == full);
        assert forall|i: int| 0 <= i < full.len() implies #[trigger] full[i] != '\n' by {
            if i < j.len() {
                assert(full[i] == j[i]);
            } else if i == j.len() {
                assert(full[i] == ' ');
            } else {
                assert(full[i] == last[i - j.len() - 1]);
                assert(!is_space(last[i - j.len() - 1]));
            }
        }
    }
}


/// Whether `s` holds no `'\n'`.
pub open spec fn no_newline(s: Seq<char>) -> bool {
    forall|i: int| 0 <= i < s.len() ==> #[trigger] s[i] != '\n'
}

pub proof fn lemma_no_newline_concat(x: Seq<char>, y: Seq<char>)
    requires
        no_newline(x),
        no_newline(y),
    ensures
        no_newline(x + y),
{
    let s = x + y;
    assert forall|i: int| 0 <= i < s.len() implies #[trigger] s[i] != '\n' by {
        if i < x.len() {
            assert(s[i] == x[i]);
        } else {
            assert(s[i] == y[i - x.len()]);
        }
    }
}

pub proof fn lemma_token_no_newline(x: Seq<char>)
    requires
        is_token(x),
    ensures
        no_newline(x),
{
    assert(is_space('\n'));
    assert forall|i: int| 0 <= i < x.len() implies #[trigger] x[i] != '\n' by {
        assert(!is_space(x[i]));
    }
}

/// A line without `'\n'`, followed by one, is a single line.
pub proof fn lemma_lines_single(line: Seq<char>)
    requires
        no_newline(line),
    ensures
        lines(line + seq!['\n']) == seq![line],
{
    let s = line + seq!['\n'];
    assert forall|i: int| 0 <= i < line.len() implies #[trigger] s[i] != '\n' by {
        assert(s[i] == line[i]);
    }
    lemma_line_len_at(s, line.len() as int);
    assert(s.take(line.len() as int) =~= line);
    assert(s.skip(line.len() + 1int) =~= Seq::<char>::empty());
    assert(lines(Seq::<char>::empty()) =~= Seq::<Seq<char>>::empty());
    assert(lines(s) =~= seq![line]);
}


/// A run of whitespace splits the words: those before it, then those after.
pub proof fn lemma_words_split_at_gap(a: Seq<char>, g: Seq<char>, r: Seq<char>)
    requires
        g.len() > 0,
        forall|i: int| 0 <= i < g.len() ==> is_space(#[trigger] g[i]),
    ensures
        words(a + g + r) == words(a) + words(r),
    decreases a.len(),
{
    let s = a + g + r;
    if a.len() == 0 {
        assert(s =~= g + r);
        lemma_words_skip_spaces(g, r);
        assert(words(a) =~= Seq::<Seq<char>>::empty());
        assert(words(s) =~= words(a) + words(r));
    } else if is_space(a[0]) {
        assert(s[0] == a[0]);
        assert(s.drop_first() =~= a.drop_first() + g + r);
        lemma_words_split_at_gap(a.drop_first(), g, r);
    } else {
        lemma_word_len_props(a);
        lemma_word_len_bound(a);
        let k = word_len(a) as int;
        assert(s[0] == a[0]);
        assert forall|i: int| 0 <= i < k implies !is_space(#[trigger] s[i]) by {
            assert(s[i] == a[i]);
        }
        if k < a.len() {
            assert(s[k] == a[k]);
            lemma_word_len_at(s, k);
            assert(s.take(k) =~= a.take(k));
            assert(s.skip(k) =~= a.skip(k) + g + r);
            lemma_words_split_at_gap(a.skip(k), g, r);
            assert(words(s) =~= words(a) + words(r));
        } else {
            assert(s[k] == g[0]);
            lemma_word_len_at(s, k);
            assert(s.take(k) =~= a);
            assert(s.skip(k) =~= g + r);
            lemma_words_skip_spaces(g, r);
            assert(a.skip(k) =~= Seq::<char>::empty());
            assert(words(a.skip(k)) =~= Seq::<Seq<char>>::empty());
            assert(a.take(k) =~= a);
            assert(words(a) == seq![a.take(k)] + words(a.skip(k)));
            assert(words(s) == seq![s.take(k)] + words(s.skip(k)));
            assert(words(s) =~= words(a) + words(r));
        }
    }
}

/// A token is one word.
pub proof fn lemma_words_of_token(t: Seq<char>)
    requires
        is_token(t),
    ensures
        words(t) == seq![t],
{
    assert(!is_space(t[0]));
    lemma_word_len_at(t, t.len() as int);
    assert(t.take(t.len() as int) =~= t);
    assert(t.skip(t.len() as int) =~= Seq::<char>::empty());
    assert(words(Seq::<char>::empty()) =~= Seq::<Seq<char>>::empty());
    assert(words(t) =~= seq![t]);
}

/// Joining tokens with single spaces and splitting the result into words
/// gives the tokens back.
pub proof fn lemma_words_of_join(ws: Seq<Seq<char>>)
    requires
        forall|k: int| 0 <= k < ws.len() ==> is_token(#[trigger] ws[k]),
    ensures
        words(join_words(ws)) == ws,
    decreases ws.len(),
{
    if ws.len() == 0 {
        assert(words(join_words(ws)) =~= ws);
    } else if ws.len() == 1 {
        assert(is_token(ws[0]));
        lemma_words_of_token(ws[0]);
        assert(words(join_words(ws)) =~= ws);
    } else {
        let init = ws.drop_last();
        assert forall|k: int| 0 <= k < init.len() implies is_token(#[trigger] init[k]) by {
            assert(init[k] == ws[k]);
        }
        lemma_words_of_join(init);
        assert(is_token(ws[ws.len() - 1]));
        lemma_words_of_token(ws.last());
        assert(is_space(' '));
        lemma_words_split_at_gap(join_words(init), seq![' '], ws.last());
        assert(words(join_words(ws)) =~= ws);
    }
}

} // verus!
