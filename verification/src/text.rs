//! Character-level text handling: Unicode white space, trimming, and the
//! splitting of command output into lines.

use vstd::prelude::*;

verus! {

/// The characters with the Unicode `White_Space` property.
pub open spec fn is_white_space(c: char) -> bool {
    let n: u32 = c as u32;
    ||| 0x09 <= n <= 0x0d
    ||| n == 0x20
    ||| n == 0x85
    ||| n == 0xa0
    ||| n == 0x1680
    ||| 0x2000 <= n <= 0x200a
    ||| n == 0x2028
    ||| n == 0x2029
    ||| n == 0x202f
    ||| n == 0x205f
    ||| n == 0x3000
}

/// A text is blank when every one of its characters is white space.
pub open spec fn is_blank_text(s: Seq<char>) -> bool {
    forall|i: int| 0 <= i < s.len() ==> is_white_space(#[trigger] s[i])
}

/// Decides whether `c` has the Unicode `White_Space` property.
pub fn white_space(c: char) -> (r: bool)
    ensures
        r == is_white_space(c),
{
    let n: u32 = c as u32;
    (0x09 <= n && n <= 0x0d) || n == 0x20 || n == 0x85 || n == 0xa0 || n == 0x1680 || (0x2000
        <= n && n <= 0x200a) || n == 0x2028 || n == 0x2029 || n == 0x202f || n == 0x205f || n
        == 0x3000
}

/// The characters of `s`, in order.
pub fn chars_of(s: &str) -> (v: Vec<char>)
    ensures
        v@ == s@,
{
    let mut v: Vec<char> = Vec::new();
    for c in it: s.chars()
        invariant
            v@ == it.seq().take(it.index() as int),
            it.seq() == s@,
    {
        v.push(c);
    }
    v
}

/// `s` without its leading white space.
pub open spec fn trim_start(s: Seq<char>) -> Seq<char>
    decreases s.len(),
{
    if s.len() > 0 && is_white_space(s[0]) {
        trim_start(s.drop_first())
    } else {
        s
    }
}

/// `s` without its trailing white space.
pub open spec fn trim_end(s: Seq<char>) -> Seq<char>
    decreases s.len(),
{
    if s.len() > 0 && is_white_space(s.last()) {
        trim_end(s.drop_last())
    } else {
        s
    }
}

/// `s` without its leading and trailing white space.
pub open spec fn trim(s: Seq<char>) -> Seq<char> {
    trim_end(trim_start(s))
}

/// The pieces of `s` between its newline characters, in order: one more
/// piece than `s` has newlines.
pub open spec fn segments(s: Seq<char>) -> Seq<Seq<char>>
    decreases s.len(),
{
    if s.len() == 0 {
        seq![Seq::<char>::empty()]
    } else {
        let p = segments(s.drop_last());
        if s.last() == '\n' {
            p.push(Seq::<char>::empty())
        } else {
            p.update(p.len() - 1, p.last().push(s.last()))
        }
    }
}

/// The trimmed pieces of `pieces` that are not empty, in order.
pub open spec fn kept_lines(pieces: Seq<Seq<char>>) -> Seq<Seq<char>> {
    pieces.map_values(|l: Seq<char>| trim(l)).filter(|l: Seq<char>| l.len() > 0)
}

/// The lines of a command's output: split at newlines, trimmed, with the
/// empty ones left out.
pub open spec fn output_lines(s: Seq<char>) -> Seq<Seq<char>> {
    kept_lines(segments(s))
}

/// The texts that a sequence of strings holds.
pub open spec fn texts(v: Seq<String>) -> Seq<Seq<char>> {
    v.map_values(|t: String| t@)
}

proof fn lemma_segments_not_empty(s: Seq<char>)
    ensures
        segments(s).len() >= 1,
    decreases s.len(),
{
    if s.len() > 0 {
        lemma_segments_not_empty(s.drop_last());
    }
}

proof fn lemma_kept_lines_push(pieces: Seq<Seq<char>>, x: Seq<char>)
    ensures
        kept_lines(pieces.push(x)) == (if trim(x).len() > 0 {
            kept_lines(pieces).push(trim(x))
        } else {
            kept_lines(pieces)
        }),
{
    let f = |l: Seq<char>| trim(l);
    let m = pieces.map_values(f);
    assert(pieces.push(x).map_values(f) =~= m.push(trim(x)));
    assert(m.push(trim(x)).drop_last() =~= m);
    reveal(Seq::filter);
}

/// Whether `a` and `b` hold the same text.
pub fn same_text(a: &str, b: &str) -> (r: bool)
    ensures
        r == (a@ == b@),
{
    a.to_owned() == b.to_owned()
}

/// Whether every character of `s` is white space.
pub fn is_blank(s: &str) -> (r: bool)
    ensures
        r == is_blank_text(s@),
{
    let mut blank = true;
    for c in it: s.chars()
        invariant
            it.seq() == s@,
            blank == (forall|j: int| 0 <= j < it.index() ==> is_white_space(#[trigger] s@[j])),
    {
        if !white_space(c) {
            blank = false;
        }
    }
    blank
}

/// The piece `chars[from..to]` of `s`, trimmed, where `chars` holds the
/// characters of `s`.
fn trimmed_piece(s: &str, chars: &Vec<char>, from: usize, to: usize) -> (r: String)
    requires
        chars@ == s@,
        from <= to <= chars@.len(),
    ensures
        r@ == trim(chars@.subrange(from as int, to as int)),
{
    let mut lo: usize = from;
    while lo < to && white_space(chars[lo])
        invariant
            chars@ == s@,
            from <= lo <= to <= chars@.len(),
            trim_start(chars@.subrange(from as int, to as int)) == trim_start(
                chars@.subrange(lo as int, to as int),
            ),
        decreases to - lo,
    {
        assert(chars@.subrange(lo as int, to as int).drop_first() =~= chars@.subrange(
            lo + 1,
            to as int,
        ));
        lo = lo + 1;
    }
    assert(trim_start(chars@.subrange(from as int, to as int)) =~= chars@.subrange(
        lo as int,
        to as int,
    ));
    let mut hi: usize = to;
    while hi > lo && white_space(chars[hi - 1])
        invariant
            chars@ == s@,
            from <= lo <= hi <= to <= chars@.len(),
            trim_end(chars@.subrange(lo as int, to as int)) == trim_end(
                chars@.subrange(lo as int, hi as int),
            ),
        decreases hi - lo,
    {
        assert(chars@.subrange(lo as int, hi as int).drop_last() =~= chars@.subrange(
            lo as int,
            hi - 1,
        ));
        hi = hi - 1;
    }
    assert(trim_end(chars@.subrange(lo as int, hi as int)) =~= chars@.subrange(
        lo as int,
        hi as int,
    ));
    s.substring_char(lo, hi).to_owned()
}

/// Splits command output into lines, trims each line, and leaves out the
/// lines that are then empty.
pub fn parse_lines(output: &str) -> (lines: Vec<String>)
    ensures
        texts(lines@) == output_lines(output@),
{
    let chars = chars_of(output);
    let n: usize = chars.len();
    let mut lines: Vec<String> = Vec::new();
    let mut start: usize = 0;
    let ghost mut done: Seq<Seq<char>> = Seq::empty();
    assert(chars@.take(0) =~= Seq::<char>::empty());
    assert(chars@.subrange(0, 0) =~= Seq::<char>::empty());
    for i in 0..n
        invariant
            n == chars@.len(),
            chars@ == output@,
            start <= i,
            segments(chars@.take(i as int)) == done.push(chars@.subrange(start as int, i as int)),
            texts(lines@) == kept_lines(done),
    {
        let ghost prefix = chars@.take(i as int);
        assert(chars@.take(i + 1).drop_last() =~= prefix);
        assert(chars@.take(i + 1).last() == chars@[i as int]);
        proof {
            lemma_segments_not_empty(prefix);
        }
        if chars[i] == '\n' {
            let line = trimmed_piece(output, &chars, start, i);
            proof {
                lemma_kept_lines_push(done, chars@.subrange(start as int, i as int));
                done = done.push(chars@.subrange(start as int, i as int));
            }
            if line.unicode_len() > 0 {
                lines.push(line);
            }
            start = i + 1;
            assert(chars@.subrange(start as int, i + 1) =~= Seq::<char>::empty());
        } else {
            assert(chars@.subrange(start as int, i as int).push(chars@[i as int]) =~= chars@.subrange(
                start as int,
                i + 1,
            ));
            let ghost piece = chars@.subrange(start as int, i as int);
            assert(done.push(piece).update(done.len() as int, piece.push(chars@[i as int])) =~= done.push(
                chars@.subrange(start as int, i + 1),
            ));
        }
        assert(texts(lines@) =~= kept_lines(done));
    }
    assert(chars@.take(n as int) =~= chars@);
    let line = trimmed_piece(output, &chars, start, n);
    proof {
        lemma_kept_lines_push(done, chars@.subrange(start as int, n as int));
        done = done.push(chars@.subrange(start as int, n as int));
    }
    if line.unicode_len() > 0 {
        lines.push(line);
    }
    assert(texts(lines@) =~= kept_lines(done));
    lines
}

/// A line as `parse_lines` returns it: not empty, with no white space at
/// either end, and no newline inside.
pub open spec fn is_clean_line(l: Seq<char>) -> bool {
    &&& l.len() > 0
    &&& !is_white_space(l[0])
    &&& !is_white_space(l.last())
    &&& !l.contains('\n')
}

proof fn lemma_trim_start_suffix(s: Seq<char>)
    ensures
        exists|k: int| 0 <= k <= s.len() && #[trigger] s.skip(k) == trim_start(s),
        trim_start(s).len() > 0 ==> !is_white_space(trim_start(s)[0]),
    decreases s.len(),
{
    if s.len() > 0 && is_white_space(s[0]) {
        lemma_trim_start_suffix(s.drop_first());
        let k: int = choose|k: int| 0 <= k <= s.drop_first().len() && #[trigger] s.drop_first().skip(k)
            == trim_start(s.drop_first());
        assert(s.skip(k + 1) =~= s.drop_first().skip(k));
    } else {
        assert(s.skip(0) =~= s);
    }
}

proof fn lemma_trim_end_prefix(s: Seq<char>)
    ensures
        exists|k: int| 0 <= k <= s.len() && #[trigger] s.take(k) == trim_end(s),
        trim_end(s).len() > 0 ==> !is_white_space(trim_end(s).last()),
    decreases s.len(),
{
    if s.len() > 0 && is_white_space(s.last()) {
        lemma_trim_end_prefix(s.drop_last());
        let k: int = choose|k: int| 0 <= k <= s.drop_last().len() && #[trigger] s.drop_last().take(k)
            == trim_end(s.drop_last());
        assert(s.take(k) =~= s.drop_last().take(k));
    } else {
        assert(s.take(s.len() as int) =~= s);
    }
}

proof fn lemma_trim_is_clean(s: Seq<char>)
    requires
        !s.contains('\n'),
        trim(s).len() > 0,
    ensures
        is_clean_line(trim(s)),
{
    let t = trim_start(s);
    lemma_trim_start_suffix(s);
    lemma_trim_end_prefix(t);
    let a: int = choose|k: int| 0 <= k <= s.len() && #[trigger] s.skip(k) == t;
    let b: int = choose|k: int| 0 <= k <= t.len() && #[trigger] t.take(k) == trim_end(t);
    assert(trim(s)[0] == t[0]);
    assert forall|i: int| 0 <= i < trim(s).len() implies trim(s)[i] != '\n' by {
        assert(trim(s)[i] == s[a + i]);
    }
}

proof fn lemma_segments_have_no_newline(s: Seq<char>)
    ensures
        forall|i: int| 0 <= i < segments(s).len() ==> !(#[trigger] segments(s)[i]).contains('\n'),
    decreases s.len(),
{
    if s.len() > 0 {
        let p = segments(s.drop_last());
        lemma_segments_have_no_newline(s.drop_last());
        lemma_segments_not_empty(s.drop_last());
        if s.last() != '\n' {
            let l = p.last().push(s.last());
            assert forall|j: int| 0 <= j < l.len() implies l[j] != '\n' by {
                if j < l.len() - 1 {
                    assert(l[j] == p[p.len() - 1][j]);
                }
            }
        }
        assert forall|i: int| 0 <= i < segments(s).len() implies !(#[trigger] segments(s)[i]).contains('\n') by {
            if i < p.len() && !(s.last() != '\n' && i == p.len() - 1) {
                assert(segments(s)[i] == p[i]);
            }
        }
    }
}

proof fn lemma_kept_lines_clean(pieces: Seq<Seq<char>>)
    requires
        forall|i: int| 0 <= i < pieces.len() ==> !(#[trigger] pieces[i]).contains('\n'),
    ensures
        forall|i: int| 0 <= i < kept_lines(pieces).len() ==> is_clean_line(
            #[trigger] kept_lines(pieces)[i],
        ),
    decreases pieces.len(),
{
    if pieces.len() > 0 {
        let front = pieces.drop_last();
        let x = pieces.last();
        assert(front.push(x) =~= pieces);
        lemma_kept_lines_clean(front);
        lemma_kept_lines_push(front, x);
        if trim(x).len() > 0 {
            lemma_trim_is_clean(x);
        }
    } else {
        assert(kept_lines(pieces) =~= Seq::<Seq<char>>::empty()) by {
            reveal(Seq::filter);
            assert(pieces.map_values(|l: Seq<char>| trim(l)) =~= Seq::<Seq<char>>::empty());
        }
    }
}

/// Every line of command output that `parse_lines` returns is clean: not
/// empty, with no white space at either end, and with no newline inside.
pub proof fn law_output_lines_are_clean(s: Seq<char>)
    ensures
        forall|i: int| 0 <= i < output_lines(s).len() ==> is_clean_line(#[trigger] output_lines(s)[i]),
{
    lemma_segments_have_no_newline(s);
    lemma_kept_lines_clean(segments(s));
}

/// The lines `lines` joined into one text, with a newline between each two.
pub open spec fn joined(lines: Seq<Seq<char>>) -> Seq<char>
    decreases lines.len(),
{
    if lines.len() == 0 {
        Seq::empty()
    } else if lines.len() == 1 {
        lines[0]
    } else {
        joined(lines.drop_last()) + seq!['\n'] + lines.last()
    }
}

proof fn lemma_segments_append(x: Seq<char>, b: Seq<char>)
    requires
        !b.contains('\n'),
    ensures
        segments(x).len() >= 1,
        segments(x + b) == segments(x).update(
            segments(x).len() - 1,
            segments(x).last() + b,
        ),
    decreases b.len(),
{
    lemma_segments_not_empty(x);
    if b.len() == 0 {
        assert(x + b =~= x);
        assert(segments(x).last() + b =~= segments(x).last());
        assert(segments(x).update(segments(x).len() - 1, segments(x).last()) =~= segments(x));
    } else {
        let front = b.drop_last();
        let c = b.last();
        assert(!front.contains('\n')) by {
            if front.contains('\n') {
                let k = choose|k: int| 0 <= k < front.len() && front[k] == '\n';
                assert(b[k] == '\n');
            }
        }
        lemma_segments_append(x, front);
        assert((x + b).drop_last() =~= x + front);
        assert((x + b).last() == c);
        assert(c != '\n') by {
            assert(b[b.len() - 1] == c);
        }
        let n = segments(x).len() - 1;
        assert(segments(x).last() + front + seq![c] =~= segments(x).last() + b);
        assert((segments(x).last() + front).push(c) =~= segments(x).last() + b);
        assert(segments(x).update(n, segments(x).last() + front).update(
            n,
            (segments(x).last() + front).push(c),
        ) =~= segments(x).update(n, segments(x).last() + b));
    }
}

proof fn lemma_segments_of_joined(lines: Seq<Seq<char>>)
    requires
        lines.len() >= 1,
        forall|i: int| 0 <= i < lines.len() ==> !(#[trigger] lines[i]).contains('\n'),
    ensures
        segments(joined(lines)) == lines,
    decreases lines.len(),
{
    if lines.len() == 1 {
        lemma_segments_append(Seq::empty(), lines[0]);
        assert(Seq::<char>::empty() + lines[0] =~= lines[0]);
        assert(seq![Seq::<char>::empty()].update(0, Seq::<char>::empty() + lines[0]) =~= lines);
    } else {
        let front = lines.drop_last();
        let last = lines.last();
        lemma_segments_of_joined(front);
        let j = joined(front).push('\n');
        assert(joined(lines) =~= j + last);
        assert(j.drop_last() =~= joined(front));
        assert(segments(j) == front.push(Seq::<char>::empty()));
        lemma_segments_append(j, last);
        assert(Seq::<char>::empty() + last =~= last);
        assert(front.push(Seq::<char>::empty()).update(front.len() as int, last) =~= lines);
    }
}

proof fn lemma_clean_line_is_trimmed(l: Seq<char>)
    requires
        is_clean_line(l),
    ensures
        trim(l) == l,
{
}

proof fn lemma_kept_clean_lines(lines: Seq<Seq<char>>)
    requires
        forall|i: int| 0 <= i < lines.len() ==> is_clean_line(#[trigger] lines[i]),
    ensures
        kept_lines(lines) == lines,
    decreases lines.len(),
{
    if lines.len() > 0 {
        let front = lines.drop_last();
        assert(front.push(lines.last()) =~= lines);
        lemma_kept_clean_lines(front);
        lemma_kept_lines_push(front, lines.last());
        lemma_clean_line_is_trimmed(lines.last());
    } else {
        assert(kept_lines(lines) =~= lines) by {
            reveal(Seq::filter);
            assert(lines.map_values(|l: Seq<char>| trim(l)) =~= Seq::<Seq<char>>::empty());
        }
    }
}

/// Parsing the lines of a command's output again, joined with newlines,
/// gives back the same lines; output that holds nothing gives no lines.
pub proof fn law_parsing_joined_lines_gives_them_back(s: Seq<char>)
    ensures
        output_lines(joined(output_lines(s))) == output_lines(s),
        output_lines(Seq::empty()) == Seq::<Seq<char>>::empty(),
{
    let lines = output_lines(s);
    law_output_lines_are_clean(s);
    assert(kept_lines(seq![Seq::<char>::empty()]) =~= Seq::<Seq<char>>::empty()) by {
        lemma_kept_lines_push(Seq::<Seq<char>>::empty(), Seq::<char>::empty());
        assert(Seq::<Seq<char>>::empty().push(Seq::<char>::empty()) =~= seq![Seq::<char>::empty()]);
        lemma_kept_clean_lines(Seq::<Seq<char>>::empty());
    }
    if lines.len() == 0 {
        assert(segments(Seq::<char>::empty()) =~= seq![Seq::<char>::empty()]);
    } else {
        lemma_segments_of_joined(lines);
        lemma_kept_clean_lines(lines);
    }
    assert(segments(Seq::<char>::empty()) =~= seq![Seq::<char>::empty()]);
}

proof fn lemma_trim_start_index(s: Seq<char>) -> (k: int)
    ensures
        0 <= k <= s.len(),
        trim_start(s) == s.skip(k),
        forall|m: int| 0 <= m < k ==> is_white_space(#[trigger] s[m]),
        k < s.len() ==> !is_white_space(s[k]),
    decreases s.len(),
{
    if s.len() > 0 && is_white_space(s[0]) {
        let rest = s.drop_first();
        let k = lemma_trim_start_index(rest);
        assert(s.skip(k + 1) =~= rest.skip(k));
        assert forall|m: int| 0 <= m < k + 1 implies is_white_space(#[trigger] s[m]) by {
            if m > 0 {
                assert(s[m] == rest[m - 1]);
            }
        }
        assert(k + 1 < s.len() ==> s[k + 1] == rest[k]);
        k + 1
    } else {
        assert(s.skip(0) =~= s);
        0
    }
}

proof fn lemma_trim_end_index(s: Seq<char>) -> (k: int)
    ensures
        0 <= k <= s.len(),
        trim_end(s) == s.take(k),
        forall|m: int| k <= m < s.len() ==> is_white_space(#[trigger] s[m]),
        k > 0 ==> !is_white_space(s[k - 1]),
    decreases s.len(),
{
    if s.len() > 0 && is_white_space(s.last()) {
        let rest = s.drop_last();
        let k = lemma_trim_end_index(rest);
        assert(s.take(k) =~= rest.take(k));
        assert forall|m: int| k <= m < s.len() implies is_white_space(#[trigger] s[m]) by {
            if m < s.len() - 1 {
                assert(s[m] == rest[m]);
            }
        }
        assert(k > 0 ==> s[k - 1] == rest[k - 1]);
        k
    } else {
        assert(s.take(s.len() as int) =~= s);
        s.len() as int
    }
}

/// Trimming keeps the stretch of `s` from its first to its last character
/// that is not white space, and drops only white space around it.
pub proof fn law_trim_drops_only_surrounding_white_space(s: Seq<char>)
    ensures
        exists|i: int, j: int|
            #![trigger s.subrange(i, j)]
            0 <= i <= j <= s.len() && trim(s) == s.subrange(i, j) && (forall|m: int|
                0 <= m < i ==> is_white_space(#[trigger] s[m])) && (forall|m: int|
                j <= m < s.len() ==> is_white_space(#[trigger] s[m])) && (i < j ==> !is_white_space(
                s[i],
            ) && !is_white_space(s[j - 1])),
{
    let i = lemma_trim_start_index(s);
    let t = s.skip(i);
    let k = lemma_trim_end_index(t);
    let j = i + k;
    assert(trim(s) =~= s.subrange(i, j));
    assert forall|m: int| j <= m < s.len() implies is_white_space(#[trigger] s[m]) by {
        assert(s[m] == t[m - i]);
    }
    if i < j {
        assert(s[j - 1] == t[k - 1]);
    }
}

proof fn lemma_segments_after_newline(a: Seq<char>, b: Seq<char>)
    ensures
        segments(a + seq!['\n'] + b) == segments(a) + segments(b),
    decreases b.len(),
{
    lemma_segments_not_empty(a);
    lemma_segments_not_empty(b);
    if b.len() == 0 {
        let x = a + seq!['\n'];
        assert(x + b =~= x);
        assert(x.drop_last() =~= a);
        assert(segments(b) =~= seq![Seq::<char>::empty()]);
        assert(segments(a).push(Seq::<char>::empty()) =~= segments(a) + segments(b));
    } else {
        let front = b.drop_last();
        let c = b.last();
        lemma_segments_after_newline(a, front);
        lemma_segments_not_empty(front);
        let whole = a + seq!['\n'] + b;
        assert(whole.drop_last() =~= a + seq!['\n'] + front);
        assert(whole.last() == c);
        assert(b.drop_last() =~= front);
        let p = segments(a);
        let q = segments(front);
        if c == '\n' {
            assert((p + q).push(Seq::<char>::empty()) =~= p + q.push(Seq::<char>::empty()));
        } else {
            assert((p + q).update((p + q).len() - 1, (p + q).last().push(c)) =~= p + q.update(
                q.len() - 1,
                q.last().push(c),
            ));
        }
    }
}

/// The lines of output joined at a newline are the lines of the part before
/// it followed by the lines of the part after it; and a text without a
/// newline gives its trimmed self as its one line, or no line when it is
/// blank.
pub proof fn law_output_lines_split_at_newlines(a: Seq<char>, b: Seq<char>)
    ensures
        output_lines(a + seq!['\n'] + b) == output_lines(a) + output_lines(b),
        !a.contains('\n') ==> output_lines(a) == (if trim(a).len() > 0 {
            seq![trim(a)]
        } else {
            Seq::<Seq<char>>::empty()
        }),
{
    broadcast use vstd::seq::Seq::filter_distributes_over_add;

    lemma_segments_after_newline(a, b);
    let f = |l: Seq<char>| trim(l);
    assert((segments(a) + segments(b)).map_values(f) =~= segments(a).map_values(f) + segments(
        b,
    ).map_values(f));
    if !a.contains('\n') {
        lemma_segments_append(Seq::empty(), a);
        assert(Seq::<char>::empty() + a =~= a);
        assert(segments(a) =~= seq![a]);
        lemma_kept_lines_push(Seq::empty(), a);
        assert(Seq::<Seq<char>>::empty().push(a) =~= seq![a]);
        assert(kept_lines(Seq::<Seq<char>>::empty()) =~= Seq::<Seq<char>>::empty()) by {
            reveal(Seq::filter);
            assert(Seq::<Seq<char>>::empty().map_values(f) =~= Seq::<Seq<char>>::empty());
        }
        assert(Seq::<Seq<char>>::empty().push(trim(a)) =~= seq![trim(a)]);
    }
}

} // verus!
