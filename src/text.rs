use vstd::prelude::*;
use vstd::std_specs::iter::IteratorSpec;

verus! {

broadcast use vstd::string::group_string_axioms;

/// Characters with the Unicode `White_Space` property.
pub open spec fn white_space(c: char) -> bool {
    let u = c as u32;
    (0x9 <= u <= 0xd) || u == 0x20 || u == 0x85 || u == 0xa0 || u == 0x1680 || (0x2000 <= u
        <= 0x200a) || u == 0x2028 || u == 0x2029 || u == 0x202f || u == 0x205f || u == 0x3000
}

/// `s` with leading white space removed.
pub open spec fn trim_front(s: Seq<char>) -> Seq<char>
    decreases s.len(),
{
    if s.len() > 0 && white_space(s[0]) {
        trim_front(s.drop_first())
    } else {
        s
    }
}

/// `s` with trailing white space removed.
pub open spec fn trim_back(s: Seq<char>) -> Seq<char>
    decreases s.len(),
{
    if s.len() > 0 && white_space(s.last()) {
        trim_back(s.drop_last())
    } else {
        s
    }
}

/// `s` with white space removed at both ends.
pub open spec fn trimmed(s: Seq<char>) -> Seq<char> {
    trim_back(trim_front(s))
}

/// `needle` occurs in `hay` as a contiguous run.
pub open spec fn has_infix(hay: Seq<char>, needle: Seq<char>) -> bool {
    exists|i: int|
        0 <= i <= hay.len() - needle.len() && #[trigger] hay.subrange(i, i + needle.len())
            == needle
}

pub open spec fn digit_char(d: nat) -> char {
    if d == 0 {
        '0'
    } else if d == 1 {
        '1'
    } else if d == 2 {
        '2'
    } else if d == 3 {
        '3'
    } else if d == 4 {
        '4'
    } else if d == 5 {
        '5'
    } else if d == 6 {
        '6'
    } else if d == 7 {
        '7'
    } else if d == 8 {
        '8'
    } else {
        '9'
    }
}

/// The decimal digits of `n`, most significant first, without leading zeros.
pub open spec fn decimal(n: nat) -> Seq<char>
    decreases n,
{
    if n < 10 {
        seq![digit_char(n)]
    } else {
        decimal(n / 10).push(digit_char(n % 10))
    }
}

/// Milliseconds shown as seconds with two decimals, halves of the last
/// digit rounded up.
pub open spec fn seconds_text(ms: nat) -> Seq<char> {
    let cents = (ms + 5) / 10;
    decimal(cents / 100) + seq!['.', digit_char((cents % 100) / 10), digit_char(cents % 10)]
}

/// The pieces of `s` between occurrences of `sep`, in order; there is
/// always at least one, the last one possibly empty.
pub open spec fn pieces(s: Seq<char>, sep: char) -> Seq<Seq<char>>
    decreases s.len(),
{
    if s.len() == 0 {
        seq![seq![]]
    } else {
        let p = pieces(s.drop_last(), sep);
        if s.last() == sep {
            p.push(seq![])
        } else {
            p.update(p.len() - 1, p.last().push(s.last()))
        }
    }
}

/// The lines of `s`: its pieces, without the last one when that is empty.
pub open spec fn lines_of(s: Seq<char>) -> Seq<Seq<char>> {
    let p = pieces(s, '\n');
    if p.last().len() == 0 {
        p.drop_last()
    } else {
        p
    }
}

/// Each line of `lines` behind `prefix` and ended by a line feed.
pub open spec fn indented(lines: Seq<Seq<char>>, prefix: Seq<char>) -> Seq<char>
    decreases lines.len(),
{
    if lines.len() == 0 {
        seq![]
    } else {
        indented(lines.drop_last(), prefix) + prefix + lines.last() + seq!['\n']
    }
}

/// Whether the character has the Unicode `White_Space` property.
pub fn is_white_space(c: char) -> (r: bool)
    ensures
        r == white_space(c),
{
    let u = c as u32;
    (0x9 <= u && u <= 0xd) || u == 0x20 || u == 0x85 || u == 0xa0 || u == 0x1680 || (0x2000 <= u
        && u <= 0x200a) || u == 0x2028 || u == 0x2029 || u == 0x202f || u == 0x205f || u == 0x3000
}

/// The characters of `s` in order.
pub fn chars_of(s: &str) -> (r: Vec<char>)
    ensures
        r@ == s@,
{
    let mut it = s.chars();
    let mut v: Vec<char> = Vec::new();
    loop
        invariant
            v@ + it.remaining() == s@,
            it.decrease() is Some,
        decreases it.decrease()->0,
    {
        let ghost before = it.remaining();
        match it.next() {
            Some(c) => {
                v.push(c);
                assert(v@ + it.remaining() =~= s@) by {
                    assert(before =~= seq![c] + it.remaining());
                }
            },
            None => {
                assert(v@ =~= s@);
                return v;
            },
        }
    }
}

/// Whether `n` occurs in `h` starting at index `i`.
fn matches_at(h: &Vec<char>, n: &Vec<char>, i: usize) -> (r: bool)
    requires
        i + n.len() <= h.len(),
    ensures
        r == (h@.subrange(i as int, i + n.len()) == n@),
{
    let mut j: usize = 0;
    while j < n.len()
        invariant
            i + n.len() <= h.len(),
            j <= n.len(),
            forall|m: int| 0 <= m < j ==> h@[i + m] == n@[m],
        decreases n.len() - j,
    {
        if h[i + j] != n[j] {
            assert(h@.subrange(i as int, i + n.len())[j as int] != n@[j as int]);
            return false;
        }
        j = j + 1;
    }
    assert(h@.subrange(i as int, i + n.len()) =~= n@);
    true
}

/// Whether `needle` occurs in `hay`.
pub fn contains_text(hay: &str, needle: &str) -> (r: bool)
    ensures
        r == has_infix(hay@, needle@),
{
    let h = chars_of(hay);
    let n = chars_of(needle);
    if n.len() == 0 {
        assert(hay@.subrange(0int, 0int + needle@.len()) =~= needle@);
        return true;
    }
    if n.len() > h.len() {
        return false;
    }
    let last = h.len() - n.len();
    let mut i: usize = 0;
    while i <= last
        invariant
            h@ == hay@,
            n@ == needle@,
            last == h.len() - n.len(),
            n.len() <= h.len(),
            n.len() > 0,
            i <= last + 1,
            forall|k: int| 0 <= k < i ==> #[trigger] h@.subrange(k, k + n.len()) != n@,
        decreases last + 1 - i,
    {
        if matches_at(&h, &n, i) {
            return true;
        }
        i = i + 1;
    }
    false
}

/// Appends `prefix`, the characters of `s` from `from` to `to`, and a line feed.
fn push_line(out: &mut String, prefix: &str, s: &str, from: usize, to: usize)
    requires
        from <= to <= s@.len(),
    ensures
        final(out)@ == old(out)@ + prefix@ + s@.subrange(from as int, to as int) + seq!['\n'],
{
    out.append(prefix);
    out.append(s.substring_char(from, to));
    out.append("\n");
    proof {
        reveal_strlit("\n");
    }
}

/// Each line of `s` behind `prefix`, each ended by a line feed.
pub fn indent_lines(s: &str, prefix: &str) -> (r: String)
    ensures
        r@ == indented(lines_of(s@), prefix@),
{
    let cs = chars_of(s);
    let n = cs.len();
    let mut out = String::new();
    let mut start: usize = 0;
    let mut k: usize = 0;
    while k < n
        invariant
            cs@ == s@,
            n == s@.len(),
            start <= k <= n,
            pieces(s@.subrange(0, k as int), '\n').len() >= 1,
            out@ == indented(pieces(s@.subrange(0, k as int), '\n').drop_last(), prefix@),
            pieces(s@.subrange(0, k as int), '\n').last() == s@.subrange(start as int, k as int),
        decreases n - k,
    {
        let ghost before = pieces(s@.subrange(0, k as int), '\n');
        proof {
            assert(s@.subrange(0, k + 1).drop_last() =~= s@.subrange(0, k as int));
            assert(s@.subrange(0, k + 1).last() == s@[k as int]);
        }
        if cs[k] == '\n' {
            push_line(&mut out, prefix, s, start, k);
            proof {
                let after = pieces(s@.subrange(0, k + 1), '\n');
                assert(after == before.push(seq![]));
                assert(after.drop_last() =~= before);
                assert(before =~= before.drop_last().push(before.last()));
                assert(s@.subrange(k + 1, k + 1) =~= seq![]);
            }
            start = k + 1;
        } else {
            proof {
                let after = pieces(s@.subrange(0, k + 1), '\n');
                assert(after.drop_last() =~= before.drop_last());
                assert(s@.subrange(start as int, k + 1) =~= s@.subrange(start as int, k as int).push(
                    s@[k as int],
                ));
            }
        }
        k = k + 1;
    }
    proof {
        assert(s@.subrange(0, n as int) =~= s@);
    }
    if start < n {
        push_line(&mut out, prefix, s, start, n);
        proof {
            let p = pieces(s@, '\n');
            assert(p =~= p.drop_last().push(p.last()));
        }
    }
    out
}

/// `s` without the white space at either end.
pub fn trim_text(s: &str) -> (r: &str)
    ensures
        r@ == trimmed(s@),
{
    let cs = chars_of(s);
    let n = cs.len();
    let mut i: usize = 0;
    assert(s@.subrange(0, n as int) =~= s@);
    while i < n && is_white_space(cs[i])
        invariant
            cs@ == s@,
            n == s@.len(),
            i <= n,
            trim_front(s@) == trim_front(s@.subrange(i as int, n as int)),
        decreases n - i,
    {
        assert(s@.subrange(i as int, n as int).drop_first() =~= s@.subrange(i + 1, n as int));
        i = i + 1;
    }
    proof {
        if i < n {
            assert(!white_space(s@.subrange(i as int, n as int)[0]));
        }
    }
    let mut j: usize = n;
    while j > i && is_white_space(cs[j - 1])
        invariant
            cs@ == s@,
            n == s@.len(),
            i <= j <= n,
            trim_front(s@) == s@.subrange(i as int, n as int),
            trimmed(s@) == trim_back(s@.subrange(i as int, j as int)),
        decreases j,
    {
        assert(s@.subrange(i as int, j as int).drop_last() =~= s@.subrange(i as int, j - 1));
        j = j - 1;
    }
    proof {
        if j > i {
            assert(!white_space(s@.subrange(i as int, j as int).last()));
        }
    }
    s.substring_char(i, j)
}

/// The digit `d` as a one-character string.
fn digit_text(d: u128) -> (r: &'static str)
    requires
        d < 10,
    ensures
        r@ == seq![digit_char(d as nat)],
{
    proof {
        reveal_strlit("0");
        reveal_strlit("1");
        reveal_strlit("2");
        reveal_strlit("3");
        reveal_strlit("4");
        reveal_strlit("5");
        reveal_strlit("6");
        reveal_strlit("7");
        reveal_strlit("8");
        reveal_strlit("9");
    }
    if d == 0 {
        "0"
    } else if d == 1 {
        "1"
    } else if d == 2 {
        "2"
    } else if d == 3 {
        "3"
    } else if d == 4 {
        "4"
    } else if d == 5 {
        "5"
    } else if d == 6 {
        "6"
    } else if d == 7 {
        "7"
    } else if d == 8 {
        "8"
    } else {
        "9"
    }
}

/// The decimal representation of `n`.
pub fn decimal_text(n: u128) -> (r: String)
    ensures
        r@ == decimal(n as nat),
    decreases n,
{
    if n < 10 {
        String::from_str(digit_text(n))
    } else {
        let mut s = decimal_text(n / 10);
        s.append(digit_text(n % 10));
        s
    }
}

/// Milliseconds as seconds with two decimals.
pub fn seconds_from_millis(ms: u64) -> (r: String)
    ensures
        r@ == seconds_text(ms as nat),
{
    let cents: u64 = ms / 10 + if ms % 10 >= 5 { 1 } else { 0 };
    assert(cents == (ms + 5) / 10);
    let mut s = decimal_text((cents / 100) as u128);
    s.append(".");
    s.append(digit_text(((cents % 100) / 10) as u128));
    s.append(digit_text((cents % 10) as u128));
    proof {
        reveal_strlit(".");
    }
    s
}

/// The lines of `lines` joined by line feeds.
pub open spec fn joined(lines: Seq<Seq<char>>) -> Seq<char>
    decreases lines.len(),
{
    if lines.len() == 0 {
        seq![]
    } else if lines.len() == 1 {
        lines[0]
    } else {
        joined(lines.drop_last()) + seq!['\n'] + lines.last()
    }
}

/// The texts held by a vector of strings.
pub open spec fn texts(v: Seq<String>) -> Seq<Seq<char>> {
    v.map_values(|s: String| s@)
}

/// The strings of `lines` joined by line feeds.
pub fn join_lines(lines: &Vec<String>) -> (r: String)
    ensures
        r@ == joined(texts(lines@)),
{
    let mut out = String::new();
    let mut i: usize = 0;
    while i < lines.len()
        invariant
            i <= lines.len(),
            out@ == joined(texts(lines@.subrange(0, i as int))),
        decreases lines.len() - i,
    {
        proof {
            let pre = texts(lines@.subrange(0, i as int));
            let post = texts(lines@.subrange(0, i + 1));
            assert(post.drop_last() =~= pre);
            assert(post.last() == lines@[i as int]@);
        }
        if i > 0 {
            out.append("\n");
            proof {
                reveal_strlit("\n");
            }
        }
        out.append(lines[i].as_str());
        proof {
            if i == 0 {
                assert(texts(lines@.subrange(0, 1)) =~= seq![lines@[0]@]);
            }
        }
        i = i + 1;
    }
    assert(lines@.subrange(0, lines.len() as int) =~= lines@);
    out
}

/// The pieces of `s` between occurrences of `sep`, each without the white
/// space at its ends.
pub fn split_trimmed(s: &str, sep: char) -> (r: Vec<String>)
    ensures
        texts(r@) == pieces(s@, sep).map_values(|p: Seq<char>| trimmed(p)),
{
    let cs = chars_of(s);
    let n = cs.len();
    let mut out: Vec<String> = Vec::new();
    let mut start: usize = 0;
    let mut k: usize = 0;
    while k < n
        invariant
            cs@ == s@,
            n == s@.len(),
            start <= k <= n,
            pieces(s@.subrange(0, k as int), sep).len() >= 1,
            texts(out@) == pieces(s@.subrange(0, k as int), sep).drop_last().map_values(
                |p: Seq<char>| trimmed(p),
            ),
            pieces(s@.subrange(0, k as int), sep).last() == s@.subrange(start as int, k as int),
        decreases n - k,
    {
        let ghost before = pieces(s@.subrange(0, k as int), sep);
        proof {
            assert(s@.subrange(0, k + 1).drop_last() =~= s@.subrange(0, k as int));
            assert(s@.subrange(0, k + 1).last() == s@[k as int]);
        }
        if cs[k] == sep {
            let piece = trim_text(s.substring_char(start, k));
            let ghost old_out = out@;
            out.push(String::from_str(piece));
            proof {
                assert(texts(out@) =~= texts(old_out).push(piece@));
                let after = pieces(s@.subrange(0, k + 1), sep);
                assert(after == before.push(seq![]));
                assert(after.drop_last() =~= before);
                assert(before =~= before.drop_last().push(before.last()));
                assert(s@.subrange(k + 1, k + 1) =~= seq![]);
                assert(before.map_values(|p: Seq<char>| trimmed(p)) =~= before.drop_last().map_values(
                    |p: Seq<char>| trimmed(p),
                ).push(trimmed(before.last())));
            }
            start = k + 1;
        } else {
            proof {
                let after = pieces(s@.subrange(0, k + 1), sep);
                assert(after.drop_last() =~= before.drop_last());
                assert(s@.subrange(start as int, k + 1) =~= s@.subrange(start as int, k as int).push(
                    s@[k as int],
                ));
            }
        }
        k = k + 1;
    }
    proof {
        assert(s@.subrange(0, n as int) =~= s@);
    }
    let piece = trim_text(s.substring_char(start, n));
    let ghost old_out = out@;
    out.push(String::from_str(piece));
    proof {
        assert(texts(out@) =~= texts(old_out).push(piece@));
        let p = pieces(s@, sep);
        assert(p =~= p.drop_last().push(p.last()));
        assert(p.map_values(|q: Seq<char>| trimmed(q)) =~= p.drop_last().map_values(
            |q: Seq<char>| trimmed(q),
        ).push(trimmed(p.last())));
    }
    out
}

} // verus!
