use vstd::prelude::*;

verus! {

/// The Unicode `White_Space` property: the characters that separate words.
pub open spec fn is_ws(c: char) -> bool {
    let u = c as u32;
    ||| 0x09 <= u <= 0x0D
    ||| u == 0x20
    ||| u == 0x85
    ||| u == 0xA0
    ||| u == 0x1680
    ||| 0x2000 <= u <= 0x200A
    ||| u == 0x2028
    ||| u == 0x2029
    ||| u == 0x202F
    ||| u == 0x205F
    ||| u == 0x3000
}

/// Whether `c` is a whitespace character.
pub fn is_whitespace(c: char) -> (b: bool)
    ensures
        b == is_ws(c),
{
    let u = c as u32;
    (0x09 <= u && u <= 0x0D) || u == 0x20 || u == 0x85 || u == 0xA0 || u == 0x1680
        || (0x2000 <= u && u <= 0x200A) || u == 0x2028 || u == 0x2029 || u == 0x202F
        || u == 0x205F || u == 0x3000
}

/// The characters of `s`, in order.
pub fn chars_of(s: &str) -> (v: Vec<char>)
    ensures
        v@ == s@,
{
    broadcast use vstd::string::group_string_axioms;
    let mut v: Vec<char> = Vec::new();
    for c in it: s.chars()
        invariant
            v@ == it.seq().take(it.index()),
    {
        v.push(c);
    }
    v
}

/// Whether two strings hold the same characters.
pub fn str_eq(a: &str, b: &str) -> (r: bool)
    ensures
        r == (a@ == b@),
{
    let va = chars_of(a);
    let vb = chars_of(b);
    if va.len() != vb.len() {
        return false;
    }
    let mut i: usize = 0;
    while i < va.len()
        invariant
            va@ == a@,
            vb@ == b@,
            va.len() == vb.len(),
            i <= va.len(),
            forall|j: int| 0 <= j < i ==> va@[j] == vb@[j],
        decreases va.len() - i,
    {
        if va[i] != vb[i] {
            return false;
        }
        i = i + 1;
    }
    assert(a@ =~= b@);
    true
}

/// Appends `c` to the end of `s`.
///
/// Trusted: calls `String::push`, which std documents as appending the given
/// character to the end of the string.
#[verifier::external_body]
pub(crate) fn push_char(s: &mut String, c: char)
    ensures
        final(s)@ == old(s)@.push(c),
{
    s.push(c);
}


/// The words of `s`: its maximal runs of non-whitespace characters, in order.
pub open spec fn split_ws(s: Seq<char>) -> Seq<Seq<char>>
    decreases s.len(),
{
    if s.len() == 0 {
        seq![]
    } else {
        let w = split_ws(s.drop_last());
        let c = s.last();
        if is_ws(c) {
            w
        } else if s.len() >= 2 && !is_ws(s[s.len() - 2]) {
            w.drop_last().push(w.last().push(c))
        } else {
            w.push(seq![c])
        }
    }
}

/// Whether `w` is a single word: not empty, and without whitespace.
pub open spec fn is_word(w: Seq<char>) -> bool {
    w.len() > 0 && forall|i: int| 0 <= i < w.len() ==> !is_ws(#[trigger] w[i])
}

/// Text that ends in whitespace splits as the text before that whitespace.
pub proof fn lemma_split_ws_trailing_space(p: Seq<char>, c: char)
    requires
        is_ws(c),
    ensures
        split_ws(p.push(c)) == split_ws(p),
{
    assert(p.push(c).drop_last() =~= p);
}

/// A word written after a whitespace character is the last word of the text.
pub proof fn lemma_split_ws_append_word(p: Seq<char>, c: char, w: Seq<char>)
    requires
        is_ws(c),
        is_word(w),
    ensures
        split_ws(p.push(c) + w) == split_ws(p).push(w),
    decreases w.len(),
{
    let s = p.push(c) + w;
    if w.len() == 1 {
        assert(s.drop_last() =~= p.push(c));
        lemma_split_ws_trailing_space(p, c);
        assert(s.last() == w[0]);
        assert(s[s.len() - 2] == c);
        assert(seq![w[0]] =~= w);
    } else {
        let w1 = w.drop_last();
        assert(is_word(w1)) by {
            assert forall|i: int| 0 <= i < w1.len() implies !is_ws(#[trigger] w1[i]) by {
                assert(w1[i] == w[i]);
            }
        }
        lemma_split_ws_append_word(p, c, w1);
        assert(s.drop_last() =~= p.push(c) + w1);
        assert(s.last() == w[w.len() - 1]);
        assert(s[s.len() - 2] == w[w.len() - 2]);
        let prev = split_ws(p.push(c) + w1);
        assert(prev == split_ws(p).push(w1));
        assert(prev.drop_last() =~= split_ws(p));
        assert(w1.push(w.last()) =~= w);
        assert(split_ws(s) =~= split_ws(p).push(w));
    }
}

/// A single word splits into itself.
pub proof fn lemma_split_single_word(w: Seq<char>)
    requires
        is_word(w),
    ensures
        split_ws(w) == seq![w],
    decreases w.len(),
{
    if w.len() == 1 {
        assert(w.drop_last() =~= Seq::<char>::empty());
        assert(split_ws(w.drop_last()) == Seq::<Seq<char>>::empty());
        assert(!is_ws(w.last()));
        assert(seq![w[0]] =~= w);
        assert(Seq::<Seq<char>>::empty().push(seq![w.last()]) =~= seq![w]);
    } else {
        let w1 = w.drop_last();
        assert(is_word(w1)) by {
            assert forall|i: int| 0 <= i < w1.len() implies !is_ws(#[trigger] w1[i]) by {
                assert(w1[i] == w[i]);
            }
        }
        lemma_split_single_word(w1);
        assert(w[w.len() - 2] == w1[w1.len() - 1]);
        assert(!is_ws(w.last()));
        assert(!is_ws(w[w.len() - 2]));
        let prev = split_ws(w1);
        assert(prev.drop_last() =~= Seq::<Seq<char>>::empty());
        assert(prev.last() == w1);
        assert(w1.push(w.last()) =~= w);
        assert(prev.drop_last().push(prev.last().push(w.last())) =~= seq![w]);
    }
}

/// The character sequences held by a sequence of strings.
pub open spec fn string_views(v: Seq<String>) -> Seq<Seq<char>> {
    v.map_values(|w: String| w@)
}

/// Splits `s` into its whitespace-separated words.
pub fn split_whitespace(s: &str) -> (words: Vec<String>)
    ensures
        string_views(words@) == split_ws(s@),
{
    let cs = chars_of(s);
    let mut words: Vec<String> = Vec::new();
    let mut cur = String::new();
    let mut in_word = false;
    let mut i: usize = 0;
    while i < cs.len()
        invariant
            cs@ == s@,
            i <= cs.len(),
            in_word <==> (i > 0 && !is_ws(cs@[i - 1])),
            in_word ==> string_views(words@).push(cur@) == split_ws(cs@.take(i as int)),
            in_word ==> cur@.len() > 0,
            !in_word ==> string_views(words@) == split_ws(cs@.take(i as int)),
        decreases cs.len() - i,
    {
        let c = cs[i];
        let ghost prev = cs@.take(i as int);
        assert(cs@.take(i + 1).drop_last() == prev);
        assert(cs@.take(i + 1).last() == c);
        if is_whitespace(c) {
            if in_word {
                let ghost before = words@;
                let ghost wv = cur@;
                let w = cur;
                cur = String::new();
                words.push(w);
                assert(string_views(words@) =~= string_views(before).push(wv));
            }
            in_word = false;
        } else if in_word {
            push_char(&mut cur, c);
        } else {
            cur = String::new();
            push_char(&mut cur, c);
            in_word = true;
        }
        i = i + 1;
    }
    if in_word {
        let ghost before = words@;
        let ghost wv = cur@;
        words.push(cur);
        assert(string_views(words@) =~= string_views(before).push(wv));
    }
    assert(cs@.take(cs.len() as int) == cs@);
    words
}


/// The decimal digit character of `d`, for `0 <= d < 10`.
pub open spec fn digit_char(d: int) -> char {
    (d + 48) as char
}

/// The decimal digits of a natural number, most significant first.
pub open spec fn nat_digits(n: nat) -> Seq<char>
    decreases n,
{
    if n < 10 {
        seq![digit_char(n as int)]
    } else {
        nat_digits(n / 10) + seq![digit_char((n % 10) as int)]
    }
}

/// The decimal text of an integer, with a leading `-` when it is negative.
pub open spec fn decimal(n: int) -> Seq<char> {
    if n < 0 {
        seq!['-'] + nat_digits((-n) as nat)
    } else {
        nat_digits(n as nat)
    }
}

fn u64_digits(n: u64) -> (r: String)
    ensures
        r@ == nat_digits(n as nat),
    decreases n,
{
    let d = (n % 10) as u32;
    let c = char_of_digit(d);
    if n < 10 {
        let mut r = String::new();
        push_char(&mut r, c);
        assert(r@ =~= nat_digits(n as nat));
        r
    } else {
        let mut r = u64_digits(n / 10);
        push_char(&mut r, c);
        r
    }
}

fn char_of_digit(d: u32) -> (c: char)
    requires
        d < 10,
    ensures
        c == digit_char(d as int),
{
    match d {
        0 => '0',
        1 => '1',
        2 => '2',
        3 => '3',
        4 => '4',
        5 => '5',
        6 => '6',
        7 => '7',
        8 => '8',
        _ => '9',
    }
}

/// The decimal text of `n`.
pub fn i64_to_decimal(n: i64) -> (r: String)
    ensures
        r@ == decimal(n as int),
{
    if n < 0 {
        let magnitude: u64 = if n == i64::MIN {
            9223372036854775808u64
        } else {
            (-n) as u64
        };
        let digits = u64_digits(magnitude);
        let mut r = String::from_str("-");
        proof {
            reveal_strlit("-");
        }
        r.append(digits.as_str());
        assert(r@ =~= decimal(n as int));
        r
    } else {
        u64_digits(n as u64)
    }
}


/// The `Debug` text of a string: the string in double quotes, with its
/// special characters escaped.
pub uninterp spec fn str_debug_text(s: Seq<char>) -> Seq<char>;

/// Formats `s` as `{:?}` does.
///
/// Trusted: calls std's `Debug` formatting of `str` through `format!`; its
/// text depends on the characters of `s` alone.
#[verifier::external_body]
pub(crate) fn str_debug(s: &str) -> (r: String)
    ensures
        r@ == str_debug_text(s@),
{
    format!("{:?}", s)
}

/// The `Debug` text of an optional integer: `Some(<n>)` or `None`.
pub open spec fn option_debug_text(o: Option<i64>) -> Seq<char> {
    match o {
        Some(n) => "Some("@ + decimal(n as int) + ")"@,
        None => "None"@,
    }
}

/// Formats an optional integer as `{:?}` does.
pub fn option_i64_debug(o: Option<i64>) -> (r: String)
    ensures
        r@ == option_debug_text(o),
{
    match o {
        Some(n) => {
            let mut r = String::from_str("Some(");
            let digits = i64_to_decimal(n);
            r.append(digits.as_str());
            r.append(")");
            r
        },
        None => String::from_str("None"),
    }
}


/// Removes the last character of `s` and gives it, or gives `None` when `s`
/// is empty.
///
/// Trusted: calls `String::pop`, which std documents as removing the last
/// character and returning it, and returning `None` for an empty string.
#[verifier::external_body]
pub(crate) fn pop_char(s: &mut String) -> (r: Option<char>)
    ensures
        old(s)@.len() == 0 ==> r is None && final(s)@ == old(s)@,
        old(s)@.len() > 0 ==> r == Some(old(s)@.last()) && final(s)@ == old(s)@.drop_last(),
{
    s.pop()
}

} // verus!
