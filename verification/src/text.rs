//! Text primitives, specified over the characters of a string.

use vstd::prelude::*;
use vstd::string::*;

verus! {

/// The characters with the Unicode property `White_Space`.
pub open spec fn is_white_space(c: char) -> bool {
    let n = c as u32;
    ||| 0x0009 <= n <= 0x000D
    ||| n == 0x0020
    ||| n == 0x0085
    ||| n == 0x00A0
    ||| n == 0x1680
    ||| 0x2000 <= n <= 0x200A
    ||| n == 0x2028
    ||| n == 0x2029
    ||| n == 0x202F
    ||| n == 0x205F
    ||| n == 0x3000
}

/// Whether `c` is white space.
pub fn white_space(c: char) -> (r: bool)
    ensures
        r == is_white_space(c),
{
    let n: u32 = c as u32;
    (0x0009 <= n && n <= 0x000D) || n == 0x0020 || n == 0x0085 || n == 0x00A0 || n == 0x1680 || (
    0x2000 <= n && n <= 0x200A) || n == 0x2028 || n == 0x2029 || n == 0x202F || n == 0x205F || n
        == 0x3000
}

/// `s` without the characters at its start that satisfy `drop`.
pub open spec fn strip_start(s: Seq<char>, drop: spec_fn(char) -> bool) -> Seq<char>
    decreases s.len(),
{
    if s.len() > 0 && drop(s[0]) {
        strip_start(s.drop_first(), drop)
    } else {
        s
    }
}

/// `s` without the characters at its end that satisfy `drop`.
pub open spec fn strip_end(s: Seq<char>, drop: spec_fn(char) -> bool) -> Seq<char>
    decreases s.len(),
{
    if s.len() > 0 && drop(s.last()) {
        strip_end(s.drop_last(), drop)
    } else {
        s
    }
}

/// `s` without leading and trailing white space.
pub open spec fn trimmed(s: Seq<char>) -> Seq<char> {
    strip_end(strip_start(s, |c: char| is_white_space(c)), |c: char| is_white_space(c))
}

/// `s` holds nothing but white space.
pub open spec fn is_blank(s: Seq<char>) -> bool {
    trimmed(s).len() == 0
}

/// `c` with `A` to `Z` mapped onto `a` to `z`.
pub open spec fn ascii_lower(c: char) -> char {
    if 'A' <= c <= 'Z' {
        (c as u32 + 32) as char
    } else {
        c
    }
}

/// `s` with `A` to `Z` mapped onto `a` to `z`.
pub open spec fn ascii_lowercased(s: Seq<char>) -> Seq<char> {
    s.map_values(|c: char| ascii_lower(c))
}

/// The characters of `s`.
pub fn chars_of(s: &str) -> (r: Vec<char>)
    ensures
        r@ == s@,
{
    let mut out: Vec<char> = Vec::new();
    for c in it: s.chars()
        invariant
            it.seq() == s@,
            out@ == s@.take(it.index()),
    {
        out.push(c);
    }
    out
}

/// Leaves out leading and trailing white space.
pub fn trim(s: &str) -> (r: &str)
    ensures
        r@ == trimmed(s@),
{
    let chars = chars_of(s);
    let ghost drop = |c: char| is_white_space(c);
    let mut from: usize = 0;
    assert(s@.skip(0) =~= s@);
    while from < chars.len() && white_space(chars[from])
        invariant
            from <= chars.len(),
            chars@ == s@,
            drop == (|c: char| is_white_space(c)),
            strip_start(s@, drop) == strip_start(s@.skip(from as int), drop),
        decreases chars.len() - from,
    {
        assert(s@.skip(from as int).drop_first() =~= s@.skip(from + 1));
        from = from + 1;
    }
    let ghost rest = s@.skip(from as int);
    assert(strip_start(s@, drop) == rest);
    let mut to: usize = chars.len();
    assert(rest =~= s@.subrange(from as int, to as int));
    while from < to && white_space(chars[to - 1])
        invariant
            from <= to <= chars.len(),
            chars@ == s@,
            drop == (|c: char| is_white_space(c)),
            strip_end(rest, drop) == strip_end(s@.subrange(from as int, to as int), drop),
        decreases to,
    {
        assert(s@.subrange(from as int, to as int).drop_last() =~= s@.subrange(
            from as int,
            to - 1,
        ));
        to = to - 1;
    }
    s.substring_char(from, to)
}

/// `s` without slashes at its end.
pub open spec fn without_trailing_slashes(s: Seq<char>) -> Seq<char> {
    strip_end(s, |c: char| c == '/')
}

/// Leaves out the slashes at the end.
pub fn trim_end_slashes(s: &str) -> (r: &str)
    ensures
        r@ == without_trailing_slashes(s@),
{
    let chars = chars_of(s);
    let ghost drop = |c: char| c == '/';
    let mut to: usize = chars.len();
    assert(s@.take(to as int) =~= s@);
    while 0 < to && chars[to - 1] == '/'
        invariant
            to <= chars.len(),
            chars@ == s@,
            drop == (|c: char| c == '/'),
            strip_end(s@, drop) == strip_end(s@.take(to as int), drop),
        decreases to,
    {
        assert(s@.take(to as int).drop_last() =~= s@.take(to - 1));
        to = to - 1;
    }
    assert(s@.take(to as int) =~= s@.subrange(0, to as int));
    s.substring_char(0, to)
}

/// Whether two texts hold the same characters.
pub fn same_text(a: &str, b: &str) -> (r: bool)
    ensures
        r == (a@ == b@),
{
    a.to_owned() == b.to_owned()
}

/// Whether `s` begins with `prefix`.
pub fn starts_with(s: &str, prefix: &str) -> (r: bool)
    ensures
        r == prefix@.is_prefix_of(s@),
{
    let n: usize = prefix.unicode_len();
    if s.unicode_len() < n {
        return false;
    }
    same_text(s.substring_char(0, n), prefix)
}

/// `needle` stands in `s` at position `at`.
pub open spec fn occurs_at(s: Seq<char>, needle: Seq<char>, at: int) -> bool {
    0 <= at && at + needle.len() <= s.len() && s.subrange(at, at + needle.len()) == needle
}

/// `needle` stands somewhere in `s`.
pub open spec fn occurs_in(s: Seq<char>, needle: Seq<char>) -> bool {
    exists|at: int| occurs_at(s, needle, at)
}

/// Whether `needle` stands somewhere in `s`.
pub fn contains(s: &str, needle: &str) -> (r: bool)
    ensures
        r == occurs_in(s@, needle@),
{
    let n: usize = needle.unicode_len();
    let len: usize = s.unicode_len();
    if len < n {
        return false;
    }
    let mut at: usize = 0;
    while at <= len - n
        invariant
            n == needle@.len(),
            len == s@.len(),
            n <= len,
            at <= len - n + 1,
            forall|k: int| 0 <= k < at ==> !occurs_at(s@, needle@, k),
        decreases len - n + 1 - at,
    {
        if same_text(s.substring_char(at, at + n), needle) {
            assert(occurs_at(s@, needle@, at as int));
            return true;
        }
        if at == len - n {
            return false;
        }
        at = at + 1;
    }
    false
}

/// The pieces of `s` between the occurrences of `sep`; one piece where there is none.
pub open spec fn split(s: Seq<char>, sep: char) -> Seq<Seq<char>>
    decreases s.len(),
{
    if s.len() == 0 {
        seq![Seq::<char>::empty()]
    } else {
        let before = split(s.drop_last(), sep);
        if s.last() == sep {
            before.push(Seq::<char>::empty())
        } else {
            before.drop_last().push(before.last().push(s.last()))
        }
    }
}

/// A text without `sep` is one piece.
pub proof fn lemma_split_single(s: Seq<char>, sep: char)
    requires
        !s.contains(sep),
    ensures
        split(s, sep) == seq![s],
    decreases s.len(),
{
    if s.len() == 0 {
        assert(s =~= Seq::<char>::empty());
    } else {
        assert forall|i: int| 0 <= i < s.drop_last().len() implies s.drop_last()[i] != sep by {
            assert(s[i] == s.drop_last()[i]);
        }
        lemma_split_single(s.drop_last(), sep);
        assert(s.last() == s[s.len() - 1]);
        assert(s.drop_last().push(s.last()) =~= s);
        assert(split(s, sep) =~= seq![s]);
    }
}

/// A piece without `sep`, put behind a `sep`, is the last piece.
pub proof fn lemma_split_append(a: Seq<char>, b: Seq<char>, sep: char)
    requires
        !b.contains(sep),
    ensures
        split(a.push(sep) + b, sep) == split(a, sep).push(b),
    decreases b.len(),
{
    let whole = a.push(sep) + b;
    if b.len() == 0 {
        assert(whole =~= a.push(sep));
        assert(whole.drop_last() =~= a);
        assert(b =~= Seq::<char>::empty());
    } else {
        assert forall|i: int| 0 <= i < b.drop_last().len() implies b.drop_last()[i] != sep by {
            assert(b[i] == b.drop_last()[i]);
        }
        lemma_split_append(a, b.drop_last(), sep);
        assert(whole.drop_last() =~= a.push(sep) + b.drop_last());
        assert(whole.last() == b[b.len() - 1]);
        let before = split(a, sep).push(b.drop_last());
        assert(before.drop_last() =~= split(a, sep));
        assert(b.drop_last().push(b.last()) =~= b);
    }
}

/// What the strings of `v` hold.
pub open spec fn texts(v: Seq<String>) -> Seq<Seq<char>> {
    v.map_values(|s: String| s@)
}

/// The pieces of `s` between the occurrences of `sep`.
pub fn split_on(s: &str, sep: char) -> (r: Vec<String>)
    ensures
        texts(r@) == split(s@, sep),
{
    let chars = chars_of(s);
    let mut done: Vec<String> = Vec::new();
    let mut current = String::new();
    let mut i: usize = 0;
    assert(texts(done@).push(current@) =~= split(s@.take(0), sep));
    while i < chars.len()
        invariant
            i <= chars.len(),
            chars@ == s@,
            texts(done@).push(current@) == split(s@.take(i as int), sep),
        decreases chars.len() - i,
    {
        let c = chars[i];
        let ghost before = texts(done@).push(current@);
        assert(s@.take(i + 1).drop_last() =~= s@.take(i as int));
        assert(before.drop_last() =~= texts(done@));
        if c == sep {
            done.push(current);
            current = String::new();
            assert(texts(done@) =~= before);
            assert(current@ =~= Seq::<char>::empty());
        } else {
            current.push(c);
        }
        assert(texts(done@).push(current@) =~= split(s@.take(i + 1), sep));
        i = i + 1;
    }
    assert(s@.take(i as int) =~= s@);
    let ghost last = current@;
    let ghost init = texts(done@);
    done.push(current);
    assert(texts(done@) =~= init.push(last));
    done
}

/// Maps `A` to `Z` onto `a` to `z`.
pub fn ascii_lowercase(s: &str) -> (r: String)
    ensures
        r@ == ascii_lowercased(s@),
{
    let chars = chars_of(s);
    let mut out = String::new();
    let mut i: usize = 0;
    while i < chars.len()
        invariant
            i <= chars.len(),
            chars@ == s@,
            out@ =~= ascii_lowercased(s@).take(i as int),
        decreases chars.len() - i,
    {
        let c = chars[i];
        if 'A' <= c && c <= 'Z' {
            out.push((c as u8 + 32) as char);
        } else {
            out.push(c);
        }
        i = i + 1;
    }
    out
}

/// The text in an optional string.
pub fn text_in(o: &Option<String>) -> (r: Option<&str>)
    ensures
        r.deep_view() == o.deep_view(),
{
    match o {
        Some(s) => Some(s.as_str()),
        None => None,
    }
}

/// Whether `s` holds nothing but white space.
pub fn blank(s: &str) -> (r: bool)
    ensures
        r == is_blank(s@),
{
    trim(s).is_empty()
}

/// The pieces between commas, each trimmed.
pub open spec fn comma_pieces(s: Seq<char>) -> Seq<Seq<char>> {
    split(s, ',').map_values(|p: Seq<char>| trimmed(p))
}

/// The pieces between commas, each trimmed, without the blank ones.
pub open spec fn comma_list(s: Seq<char>) -> Seq<Seq<char>> {
    comma_pieces(s).filter(|p: Seq<char>| p.len() > 0)
}

/// Splits at commas and trims each piece.
pub fn split_commas(s: &str) -> (r: Vec<String>)
    ensures
        texts(r@) == comma_pieces(s@),
{
    let pieces = split_on(s, ',');
    let mut out: Vec<String> = Vec::new();
    let mut i: usize = 0;
    while i < pieces.len()
        invariant
            i <= pieces.len(),
            texts(pieces@) == split(s@, ','),
            texts(out@) =~= comma_pieces(s@).take(i as int),
        decreases pieces.len() - i,
    {
        let ghost before = out@;
        assert(texts(pieces@)[i as int] == pieces@[i as int]@);
        let piece = trim(pieces[i].as_str()).to_owned();
        out.push(piece);
        assert(texts(out@) =~= texts(before).push(piece@));
        i = i + 1;
    }
    assert(texts(out@) =~= comma_pieces(s@));
    out
}

/// Splits at commas, trims each piece and leaves the blank ones out.
pub fn comma_items(s: &str) -> (r: Vec<String>)
    ensures
        texts(r@) == comma_list(s@),
{
    let pieces = split_commas(s);
    let ghost all = comma_pieces(s@);
    let ghost keep = |p: Seq<char>| p.len() > 0;
    let mut out: Vec<String> = Vec::new();
    let mut i: usize = 0;
    proof {
        reveal(Seq::filter);
    }
    assert(texts(out@) =~= all.take(0).filter(keep));
    while i < pieces.len()
        invariant
            i <= pieces.len(),
            keep == (|p: Seq<char>| p.len() > 0),
            texts(pieces@) == all,
            texts(out@) == all.take(i as int).filter(keep),
        decreases pieces.len() - i,
    {
        let ghost before = out@;
        let ghost piece = pieces@[i as int]@;
        assert(all[i as int] == piece);
        proof {
            reveal(Seq::filter);
            assert(all.take(i + 1).drop_last() =~= all.take(i as int));
        }
        if !pieces[i].as_str().is_empty() {
            out.push(pieces[i].clone());
            assert(texts(out@) =~= texts(before).push(piece));
        }
        i = i + 1;
    }
    assert(all.take(i as int) =~= all);
    out
}

/// `a` comes before `b` in the order of strings: by the first character in which they differ, a
/// text before its continuations.
pub open spec fn is_before(a: Seq<char>, b: Seq<char>) -> bool
    decreases a.len(),
{
    if b.len() == 0 {
        false
    } else if a.len() == 0 {
        true
    } else if a[0] != b[0] {
        a[0] < b[0]
    } else {
        is_before(a.drop_first(), b.drop_first())
    }
}

/// No text comes before itself, and of two different texts exactly one comes first.
pub proof fn lemma_before_total(a: Seq<char>, b: Seq<char>)
    ensures
        a == b <==> !is_before(a, b) && !is_before(b, a),
        !(is_before(a, b) && is_before(b, a)),
    decreases a.len(),
{
    if a.len() == 0 || b.len() == 0 {
        if a.len() == 0 && b.len() == 0 {
            assert(a =~= b);
        }
    } else {
        lemma_before_total(a.drop_first(), b.drop_first());
        if a[0] == b[0] {
            assert(seq![a[0]] + a.drop_first() =~= a);
            assert(seq![b[0]] + b.drop_first() =~= b);
        }
    }
}

/// The order of strings is transitive.
pub proof fn lemma_before_transitive(a: Seq<char>, b: Seq<char>, c: Seq<char>)
    requires
        is_before(a, b),
        is_before(b, c),
    ensures
        is_before(a, c),
    decreases a.len(),
{
    if a.len() > 0 && a[0] == b[0] && b[0] == c[0] {
        lemma_before_transitive(a.drop_first(), b.drop_first(), c.drop_first());
    }
}

/// Whether `a` comes before `b` in the order of strings.
pub fn comes_before(a: &str, b: &str) -> (r: bool)
    ensures
        r == is_before(a@, b@),
{
    let left = chars_of(a);
    let right = chars_of(b);
    let mut i: usize = 0;
    assert(a@.skip(0) =~= a@ && b@.skip(0) =~= b@);
    while i < left.len() && i < right.len()
        invariant
            i <= left.len(),
            i <= right.len(),
            left@ == a@,
            right@ == b@,
            is_before(a@, b@) == is_before(a@.skip(i as int), b@.skip(i as int)),
        decreases left.len() - i,
    {
        assert(a@.skip(i as int).drop_first() =~= a@.skip(i + 1));
        assert(b@.skip(i as int).drop_first() =~= b@.skip(i + 1));
        if left[i] != right[i] {
            return left[i] < right[i];
        }
        i = i + 1;
    }
    i < right.len()
}

/// Stripping the end of a text leaves a prefix that does not end in a dropped character.
pub proof fn lemma_strip_end(s: Seq<char>, drop: spec_fn(char) -> bool)
    ensures
        strip_end(s, drop).is_prefix_of(s),
        strip_end(s, drop).len() > 0 ==> !drop(strip_end(s, drop).last()),
    decreases s.len(),
{
    if s.len() > 0 && drop(s.last()) {
        lemma_strip_end(s.drop_last(), drop);
        assert(strip_end(s, drop) =~= s.take(strip_end(s, drop).len() as int));
    } else {
        assert(s =~= s.take(s.len() as int));
    }
}

/// Stripping the start of a text leaves one that does not begin with a dropped character.
proof fn lemma_strip_start(s: Seq<char>, drop: spec_fn(char) -> bool)
    ensures
        strip_start(s, drop).len() > 0 ==> !drop(strip_start(s, drop)[0]),
    decreases s.len(),
{
    if s.len() > 0 && drop(s[0]) {
        lemma_strip_start(s.drop_first(), drop);
    }
}

/// A trimmed text neither begins nor ends with white space, and trimming it again changes nothing.
pub proof fn law_trimmed(s: Seq<char>)
    ensures
        trimmed(s).len() > 0 ==> !is_white_space(trimmed(s)[0]) && !is_white_space(
            trimmed(s).last(),
        ),
        trimmed(trimmed(s)) == trimmed(s),
{
    let drop = |c: char| is_white_space(c);
    lemma_strip_start(s, drop);
    lemma_strip_end(strip_start(s, drop), drop);
    assert(trimmed(s) == strip_end(strip_start(s, drop), drop));
}

/// The items of a comma-separated list are trimmed and not blank.
pub proof fn law_comma_items(s: Seq<char>, i: int)
    requires
        0 <= i < comma_list(s).len(),
    ensures
        comma_list(s)[i].len() > 0,
        trimmed(comma_list(s)[i]) == comma_list(s)[i],
{
    let keep = |p: Seq<char>| p.len() > 0;
    let all = comma_pieces(s);
    all.filter_lemma(keep);
    let item = comma_list(s)[i];
    assert(keep(all.filter(keep)[i]));
    assert(all.filter(keep).contains(item));
    assert(all.contains(item)) by {
        all.lemma_filter_contains_rev(keep, item);
    }
    let k = choose|k: int| 0 <= k < all.len() && all[k] == item;
    assert(all[k] == trimmed(split(s, ',')[k]));
    law_trimmed(split(s, ',')[k]);
}

/// Dropped characters that are put at the end of a text are stripped again, and no others.
pub proof fn lemma_strip_end_run(s: Seq<char>, run: Seq<char>, drop: spec_fn(char) -> bool)
    requires
        forall|i: int| 0 <= i < run.len() ==> drop(#[trigger] run[i]),
        s.len() > 0 ==> !drop(s.last()),
    ensures
        strip_end(s + run, drop) == s,
    decreases run.len(),
{
    if run.len() == 0 {
        assert(s + run =~= s);
    } else {
        assert((s + run).drop_last() =~= s + run.drop_last());
        assert((s + run).last() == run[run.len() - 1]);
        lemma_strip_end_run(s, run.drop_last(), drop);
    }
}

/// Dropped characters that are put at the start of a text are stripped again, and no others.
proof fn lemma_strip_start_run(run: Seq<char>, s: Seq<char>, drop: spec_fn(char) -> bool)
    requires
        forall|i: int| 0 <= i < run.len() ==> drop(#[trigger] run[i]),
        s.len() > 0 ==> !drop(s[0]),
    ensures
        strip_start(run + s, drop) == s,
    decreases run.len(),
{
    if run.len() == 0 {
        assert(run + s =~= s);
    } else {
        assert((run + s).drop_first() =~= run.drop_first() + s);
        assert((run + s)[0] == run[0]);
        assert forall|i: int| 0 <= i < run.drop_first().len() implies drop(
            #[trigger] run.drop_first()[i],
        ) by {
            assert(run.drop_first()[i] == run[i + 1]);
        }
        lemma_strip_start_run(run.drop_first(), s, drop);
    }
}

/// `s` is made of white space alone.
pub open spec fn all_white(s: Seq<char>) -> bool {
    forall|i: int| 0 <= i < s.len() ==> is_white_space(#[trigger] s[i])
}

/// White space around a text makes no difference to what trimming leaves: the text itself, where
/// it neither begins nor ends with white space.
pub proof fn law_trimming_ignores_white_space(left: Seq<char>, s: Seq<char>, right: Seq<char>)
    requires
        all_white(left),
        all_white(right),
        s.len() > 0 ==> !is_white_space(s[0]) && !is_white_space(s.last()),
    ensures
        trimmed(left + s + right) == s,
        is_blank(left + s + right) <==> s.len() == 0,
{
    let drop = |c: char| is_white_space(c);
    if s.len() > 0 {
        assert(left + s + right =~= left + (s + right));
        lemma_strip_start_run(left, s + right, drop);
    } else {
        assert(left + s + right =~= (left + right) + s);
        lemma_strip_start_run(left + right, s, drop);
        assert(s + Seq::<char>::empty() =~= s);
        lemma_strip_end_run(s, Seq::empty(), drop);
    }
    if s.len() > 0 {
        lemma_strip_end_run(s, right, drop);
    }
}

/// Every text is what trimming leaves of it, between white space.
pub proof fn law_trimmed_is_the_middle(s: Seq<char>)
    ensures
        exists|left: Seq<char>, right: Seq<char>|
            #![trigger all_white(left), all_white(right)]
            all_white(left) && all_white(right) && s == left + trimmed(s) + right,
        is_blank(s) <==> all_white(s),
{
    let drop = |c: char| is_white_space(c);
    let rest = strip_start(s, drop);
    lemma_strip_start_splits(s, drop);
    lemma_strip_end_splits(rest, drop);
    let left = s.take(s.len() - rest.len());
    let right = rest.skip(trimmed(s).len() as int);
    assert forall|i: int| 0 <= i < left.len() implies is_white_space(#[trigger] left[i]) by {
        assert(drop(s[i]));
    }
    assert forall|i: int| 0 <= i < right.len() implies is_white_space(#[trigger] right[i]) by {
        assert(drop(rest[trimmed(s).len() + i]));
    }
    assert(s =~= left + trimmed(s) + right);
    assert(all_white(left) && all_white(right));
    if is_blank(s) {
        assert forall|i: int| 0 <= i < s.len() implies is_white_space(#[trigger] s[i]) by {
            if i < left.len() {
                assert(s[i] == left[i]);
            } else {
                assert(s[i] == right[i - left.len()]);
            }
        }
    }
    if all_white(s) {
        assert(Seq::<char>::empty() + Seq::<char>::empty() + s =~= s);
        law_trimming_ignores_white_space(Seq::empty(), Seq::empty(), s);
    }
}

/// Stripping the start takes away a run of dropped characters.
proof fn lemma_strip_start_splits(s: Seq<char>, drop: spec_fn(char) -> bool)
    ensures
        strip_start(s, drop).len() <= s.len(),
        strip_start(s, drop) == s.skip(s.len() - strip_start(s, drop).len()),
        forall|i: int| 0 <= i < s.len() - strip_start(s, drop).len() ==> drop(#[trigger] s[i]),
    decreases s.len(),
{
    if s.len() > 0 && drop(s[0]) {
        let rest = s.drop_first();
        lemma_strip_start_splits(rest, drop);
        let n = s.len() - strip_start(s, drop).len();
        assert(rest.skip(n - 1) =~= s.skip(n));
        assert forall|i: int| 0 <= i < n implies drop(#[trigger] s[i]) by {
            if i > 0 {
                assert(s[i] == rest[i - 1]);
            }
        }
    } else {
        assert(s.skip(0) =~= s);
    }
}

/// Stripping the end takes away a run of dropped characters.
proof fn lemma_strip_end_splits(s: Seq<char>, drop: spec_fn(char) -> bool)
    ensures
        strip_end(s, drop).len() <= s.len(),
        strip_end(s, drop) == s.take(strip_end(s, drop).len() as int),
        forall|i: int| strip_end(s, drop).len() <= i < s.len() ==> drop(#[trigger] s[i]),
    decreases s.len(),
{
    if s.len() > 0 && drop(s.last()) {
        let rest = s.drop_last();
        lemma_strip_end_splits(rest, drop);
        let n = strip_end(s, drop).len() as int;
        assert(rest.take(n) =~= s.take(n));
        assert forall|i: int| n <= i < s.len() implies drop(#[trigger] s[i]) by {
            if i < rest.len() {
                assert(s[i] == rest[i]);
            }
        }
    } else {
        assert(s.take(s.len() as int) =~= s);
    }
}

/// Slashes at the end of a text make no difference to what is left without them.
pub proof fn law_trailing_slashes_do_not_count(s: Seq<char>, slashes: Seq<char>)
    requires
        s.len() > 0 ==> s.last() != '/',
        forall|i: int| 0 <= i < slashes.len() ==> #[trigger] slashes[i] == '/',
    ensures
        without_trailing_slashes(s + slashes) == s,
{
    lemma_strip_end_run(s, slashes, |c: char| c == '/');
}

/// The pieces of a text, put together again with `sep` between them.
pub open spec fn joined_with(pieces: Seq<Seq<char>>, sep: char) -> Seq<char>
    decreases pieces.len(),
{
    if pieces.len() == 0 {
        Seq::empty()
    } else if pieces.len() == 1 {
        pieces[0]
    } else {
        joined_with(pieces.drop_last(), sep).push(sep) + pieces.last()
    }
}

/// Splitting loses nothing: the pieces hold no separator, and with separators between them they
/// are the text again.
pub proof fn law_split_loses_nothing(s: Seq<char>, sep: char)
    ensures
        split(s, sep).len() > 0,
        joined_with(split(s, sep), sep) == s,
        forall|i: int| 0 <= i < split(s, sep).len() ==> !(#[trigger] split(s, sep)[i]).contains(sep),
    decreases s.len(),
{
    if s.len() == 0 {
        assert(split(s, sep) =~= seq![Seq::<char>::empty()]);
        assert(s =~= Seq::<char>::empty());
    } else {
        law_split_loses_nothing(s.drop_last(), sep);
        let before = split(s.drop_last(), sep);
        let after = split(s, sep);
        assert(s =~= s.drop_last().push(s.last()));
        if s.last() == sep {
            assert(after.drop_last() =~= before);
            assert(joined_with(before, sep).push(sep) + Seq::<char>::empty() =~= s);
        } else {
            let piece = before.last().push(s.last());
            assert(after.drop_last() =~= before.drop_last());
            assert(after.last() == piece);
            assert(!piece.contains(sep)) by {
                if piece.contains(sep) {
                    let k = choose|k: int| 0 <= k < piece.len() && piece[k] == sep;
                    assert(before[before.len() - 1][k] == sep);
                    assert(before[before.len() - 1].contains(sep));
                }
            }
            if before.len() == 1 {
                assert(after =~= seq![piece]);
                assert(piece =~= s);
            } else {
                assert(joined_with(before.drop_last(), sep).push(sep) + piece =~= s);
            }
            assert forall|i: int| 0 <= i < after.len() implies !(#[trigger] after[i]).contains(
                sep,
            ) by {
                if i < after.len() - 1 {
                    assert(after[i] == before[i]);
                }
            }
        }
    }
}

/// The pieces of two texts with a separator between them are those of the first and of the second.
pub proof fn lemma_split_concat(a: Seq<char>, b: Seq<char>, sep: char)
    ensures
        split(a.push(sep) + b, sep) == split(a, sep) + split(b, sep),
    decreases b.len(),
{
    law_split_loses_nothing(b, sep);
    let whole = a.push(sep) + b;
    if b.len() == 0 {
        assert(whole =~= a.push(sep));
        assert(whole.drop_last() =~= a);
        assert(split(b, sep) =~= seq![Seq::<char>::empty()]);
        assert(split(whole, sep) =~= split(a, sep) + split(b, sep));
    } else {
        lemma_split_concat(a, b.drop_last(), sep);
        law_split_loses_nothing(b.drop_last(), sep);
        assert(whole.drop_last() =~= a.push(sep) + b.drop_last());
        assert(whole.last() == b.last());
        let before = split(b.drop_last(), sep);
        assert((split(a, sep) + before).drop_last() =~= split(a, sep) + before.drop_last());
        assert((split(a, sep) + before).last() == before.last());
        assert(split(whole, sep) =~= split(a, sep) + split(b, sep));
    }
}

/// The items of two lists with a comma between them are those of the first and of the second.
pub proof fn law_comma_list_concat(a: Seq<char>, b: Seq<char>)
    ensures
        comma_list(a.push(',') + b) == comma_list(a) + comma_list(b),
        comma_pieces(a.push(',') + b) == comma_pieces(a) + comma_pieces(b),
{
    lemma_split_concat(a, b, ',');
    assert(comma_pieces(a.push(',') + b) =~= comma_pieces(a) + comma_pieces(b));
    Seq::filter_distributes_over_add(
        comma_pieces(a),
        comma_pieces(b),
        |p: Seq<char>| p.len() > 0,
    );
}

/// A text without a comma is a list of one item, the trimmed text, or of none where it is blank.
pub proof fn law_comma_list_single(s: Seq<char>)
    requires
        !s.contains(','),
    ensures
        comma_pieces(s) == seq![trimmed(s)],
        is_blank(s) ==> comma_list(s).len() == 0,
        !is_blank(s) ==> comma_list(s) == seq![trimmed(s)],
{
    lemma_split_single(s, ',');
    assert(comma_pieces(s) =~= seq![trimmed(s)]);
    reveal(Seq::filter);
    let keep = |p: Seq<char>| p.len() > 0;
    let one = seq![trimmed(s)];
    assert(one.drop_last() =~= Seq::<Seq<char>>::empty());
    assert(one.drop_last().filter(keep) =~= Seq::<Seq<char>>::empty());
    if !is_blank(s) {
        assert(comma_list(s) =~= seq![trimmed(s)]);
    }
}

/// A text occurs in another exactly where that is made of something, the text and something.
pub proof fn law_occurrence(s: Seq<char>, needle: Seq<char>)
    ensures
        occurs_in(s, needle) <==> exists|left: Seq<char>, right: Seq<char>|
            s == #[trigger] (left + needle + right),
{
    if occurs_in(s, needle) {
        let at = choose|at: int| occurs_at(s, needle, at);
        let left = s.take(at);
        let right = s.skip(at + needle.len());
        assert(s =~= left + s.subrange(at, at + needle.len()) + right);
        assert(s == left + needle + right);
    }
    if exists|left: Seq<char>, right: Seq<char>| s == #[trigger] (left + needle + right) {
        let (left, right) = choose|left: Seq<char>, right: Seq<char>|
            s == #[trigger] (left + needle + right);
        assert(s.subrange(left.len() as int, (left.len() + needle.len()) as int) =~= needle);
        assert(occurs_at(s, needle, left.len() as int));
    }
}

/// The order of strings is decided by the first characters that differ, and a text comes before
/// its continuations.
pub proof fn law_order_of_strings(
    common: Seq<char>,
    a: char,
    rest_a: Seq<char>,
    b: char,
    rest_b: Seq<char>,
)
    requires
        a != b,
    ensures
        is_before(common.push(a) + rest_a, common.push(b) + rest_b) <==> a < b,
        is_before(common, common.push(a) + rest_a),
    decreases common.len(),
{
    let left = common.push(a) + rest_a;
    let right = common.push(b) + rest_b;
    if common.len() > 0 {
        law_order_of_strings(common.drop_first(), a, rest_a, b, rest_b);
        assert(left.drop_first() =~= common.drop_first().push(a) + rest_a);
        assert(right.drop_first() =~= common.drop_first().push(b) + rest_b);
    }
}

/// The ASCII lower case keeps every character but `A` to `Z`, which become `a` to `z`.
pub proof fn law_ascii_lowercase(s: Seq<char>, i: int)
    requires
        0 <= i < s.len(),
    ensures
        ascii_lowercased(s).len() == s.len(),
        s[i] < 'A' || 'Z' < s[i] ==> ascii_lowercased(s)[i] == s[i],
        'A' <= s[i] <= 'Z' ==> 'a' <= ascii_lowercased(s)[i] <= 'z' && ascii_lowercased(s)[i] as int
            - 'a' as int == s[i] as int - 'A' as int,
{
}

/// What a list of strings holds is what each of them holds, in order.
pub proof fn law_texts_are_whole(v: Seq<String>, i: int)
    ensures
        texts(v).len() == v.len(),
        0 <= i < v.len() ==> texts(v)[i] == v[i]@,
{
}

} // verus!
