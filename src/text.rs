//! Character-level text operations with exact specifications.

use vstd::prelude::*;

verus! {

/// `p` occurs in `s` starting at index `i`.
pub open spec fn occurs_at(s: Seq<char>, p: Seq<char>, i: int) -> bool {
    0 <= i && i + p.len() <= s.len() && s.subrange(i, i + p.len()) == p
}

/// `p` occurs somewhere in `s`.
pub open spec fn contains(s: Seq<char>, p: Seq<char>) -> bool {
    exists|i: int| occurs_at(s, p, i)
}

/// Copies the characters of a string into a vector.
pub fn chars_of(s: &str) -> (r: Vec<char>)
    ensures
        r@ == s@,
{
    let n = s.unicode_len();
    let mut r: Vec<char> = Vec::new();
    let mut i: usize = 0;
    while i < n
        invariant
            n == s@.len(),
            i <= n,
            r@ == s@.subrange(0, i as int),
        decreases n - i,
    {
        let c = s.get_char(i);
        r.push(c);
        i = i + 1;
        assert(r@ =~= s@.subrange(0, i as int));
    }
    assert(r@ =~= s@);
    r
}

/// Whether `p` occurs in `cs` at index `i`.
pub fn occurs_at_exec(cs: &Vec<char>, p: &Vec<char>, i: usize) -> (r: bool)
    ensures
        r == occurs_at(cs@, p@, i as int),
{
    if i > cs.len() || p.len() > cs.len() - i {
        return false;
    }
    let mut k: usize = 0;
    while k < p.len()
        invariant
            i + p.len() <= cs.len(),
            k <= p.len(),
            forall|j: int| 0 <= j < k ==> cs@[i + j] == p@[j],
        decreases p.len() - k,
    {
        if cs[i + k] != p[k] {
            assert(cs@.subrange(i as int, i + p.len())[k as int] != p@[k as int]);
            return false;
        }
        k = k + 1;
    }
    assert(cs@.subrange(i as int, i + p.len()) =~= p@);
    true
}

/// The first occurrence of `p` in `cs` at or after `from`.
pub fn find_from(cs: &Vec<char>, p: &Vec<char>, from: usize) -> (r: Option<usize>)
    ensures
        match r {
            Some(i) => from <= i && occurs_at(cs@, p@, i as int) && forall|j: int|
                from <= j < i ==> !occurs_at(cs@, p@, j),
            None => forall|j: int| from <= j ==> !occurs_at(cs@, p@, j),
        },
{
    if from > cs.len() {
        return None;
    }
    let mut i: usize = from;
    while i < cs.len()
        invariant
            from <= i <= cs.len(),
            forall|j: int| from <= j < i ==> !occurs_at(cs@, p@, j),
        decreases cs.len() - i,
    {
        if occurs_at_exec(cs, p, i) {
            return Some(i);
        }
        i = i + 1;
    }
    if occurs_at_exec(cs, p, i) {
        return Some(i);
    }
    None
}

/// Whether `p` occurs in `s`.
pub fn contains_str(s: &str, p: &str) -> (r: bool)
    ensures
        r == contains(s@, p@),
{
    let cs = chars_of(s);
    let ps = chars_of(p);
    match find_from(&cs, &ps, 0) {
        Some(_) => true,
        None => false,
    }
}


/// The result of replacing, left to right, every non-overlapping occurrence of
/// `p` in `s` by `t`.
pub open spec fn replaced(s: Seq<char>, p: Seq<char>, t: Seq<char>) -> Seq<char>
    decreases s.len(),
{
    if p.len() == 0 || s.len() < p.len() {
        s
    } else if s.subrange(0, p.len() as int) == p {
        t + replaced(s.skip(p.len() as int), p, t)
    } else {
        seq![s[0]] + replaced(s.skip(1), p, t)
    }
}

/// A stretch of `s` without an occurrence of `p` is copied unchanged.
pub proof fn lemma_replaced_run(s: Seq<char>, p: Seq<char>, t: Seq<char>, i: int, j: int)
    requires
        p.len() > 0,
        0 <= i <= j <= s.len(),
        forall|k: int| i <= k < j ==> !occurs_at(s, p, k),
    ensures
        replaced(s.skip(i), p, t) == s.subrange(i, j) + replaced(s.skip(j), p, t),
    decreases j - i,
{
    if i == j {
        assert(s.subrange(i, j) + replaced(s.skip(j), p, t) =~= replaced(s.skip(j), p, t));
    } else {
        let r = s.skip(i);
        if r.len() < p.len() {
            assert(s.skip(j).len() < p.len());
            assert(replaced(r, p, t) == r);
            assert(replaced(s.skip(j), p, t) == s.skip(j));
            assert(r =~= s.subrange(i, j) + s.skip(j));
        } else {
            assert(r.subrange(0, p.len() as int) =~= s.subrange(i, i + p.len()));
            assert(!occurs_at(s, p, i));
            assert(r.subrange(0, p.len() as int) != p);
            assert(r[0] == s[i]);
            assert(replaced(r, p, t) == seq![r[0]] + replaced(r.skip(1), p, t));
            assert(r.skip(1) =~= s.skip(i + 1));
            lemma_replaced_run(s, p, t, i + 1, j);
            assert(s.subrange(i, j) =~= seq![s[i]] + s.subrange(i + 1, j));
            assert(replaced(r, p, t) =~= s.subrange(i, j) + replaced(s.skip(j), p, t));
        }
    }
}

/// An occurrence of `p` is replaced by `t`.
pub proof fn lemma_replaced_hit(s: Seq<char>, p: Seq<char>, t: Seq<char>, j: int)
    requires
        p.len() > 0,
        occurs_at(s, p, j),
    ensures
        replaced(s.skip(j), p, t) == t + replaced(s.skip(j + p.len()), p, t),
{
    let r = s.skip(j);
    assert(r.subrange(0, p.len() as int) =~= s.subrange(j, j + p.len()));
    assert(r.skip(p.len() as int) =~= s.skip(j + p.len()));
}

/// Replaces every non-overlapping occurrence of `from` in `s` by `to`.
pub fn replace_str(s: &str, from: &str, to: &str) -> (r: String)
    requires
        from@.len() > 0,
    ensures
        r@ == replaced(s@, from@, to@),
{
    let cs = chars_of(s);
    let ps = chars_of(from);
    let n = cs.len();
    let mut out = String::new();
    let mut i: usize = 0;
    assert(s@.skip(0) =~= s@);
    loop
        invariant
            cs@ == s@,
            ps@ == from@,
            n == s@.len(),
            from@.len() > 0,
            i <= n,
            replaced(s@, from@, to@) == out@ + replaced(s@.skip(i as int), from@, to@),
        decreases n - i,
    {
        match find_from(&cs, &ps, i) {
            Some(j) => {
                proof {
                    lemma_replaced_run(s@, from@, to@, i as int, j as int);
                    lemma_replaced_hit(s@, from@, to@, j as int);
                }
                out.append(s.substring_char(i, j));
                out.append(to);
                assert(replaced(s@, from@, to@) =~= out@ + replaced(
                    s@.skip(j + from@.len()),
                    from@,
                    to@,
                ));
                i = j + ps.len();
            },
            None => {
                proof {
                    lemma_replaced_run(s@, from@, to@, i as int, n as int);
                    assert(s@.skip(n as int) =~= Seq::<char>::empty());
                }
                out.append(s.substring_char(i, n));
                assert(replaced(s@, from@, to@) =~= out@);
                return out;
            },
        }
    }
}

/// The unicode white-space characters, as `char::is_whitespace` knows them.
pub open spec fn is_white(c: char) -> bool {
    let u = c as u32;
    ||| u == 0x20
    ||| 0x09 <= u <= 0x0d
    ||| u == 0x85
    ||| u == 0xa0
    ||| u == 0x1680
    ||| 0x2000 <= u <= 0x200a
    ||| u == 0x2028
    ||| u == 0x2029
    ||| u == 0x202f
    ||| u == 0x205f
    ||| u == 0x3000
}

pub fn is_white_exec(c: char) -> (r: bool)
    ensures
        r == is_white(c),
{
    let u = c as u32;
    u == 0x20 || (0x09 <= u && u <= 0x0d) || u == 0x85 || u == 0xa0 || u == 0x1680 || (0x2000
        <= u && u <= 0x200a) || u == 0x2028 || u == 0x2029 || u == 0x202f || u == 0x205f || u
        == 0x3000
}

/// `s` without its leading white space.
pub open spec fn trim_start(s: Seq<char>) -> Seq<char>
    decreases s.len(),
{
    if s.len() > 0 && is_white(s[0]) {
        trim_start(s.drop_first())
    } else {
        s
    }
}

/// `s` without its trailing white space.
pub open spec fn trim_end(s: Seq<char>) -> Seq<char>
    decreases s.len(),
{
    if s.len() > 0 && is_white(s.last()) {
        trim_end(s.drop_last())
    } else {
        s
    }
}

/// `s` without leading and trailing white space.
pub open spec fn trim(s: Seq<char>) -> Seq<char> {
    trim_end(trim_start(s))
}

/// Every character of `s` is white space.
pub open spec fn is_blank(s: Seq<char>) -> bool {
    forall|i: int| 0 <= i < s.len() ==> is_white(s[i])
}

proof fn lemma_trim_start_skip(s: Seq<char>, i: int)
    requires
        0 <= i <= s.len(),
        forall|k: int| 0 <= k < i ==> is_white(s[k]),
    ensures
        trim_start(s) == trim_start(s.skip(i)),
    decreases i,
{
    if i > 0 {
        assert(s.drop_first().skip(i - 1) =~= s.skip(i));
        lemma_trim_start_skip(s.drop_first(), i - 1);
    } else {
        assert(s.skip(0) =~= s);
    }
}

proof fn lemma_trim_end_take(s: Seq<char>, j: int)
    requires
        0 <= j <= s.len(),
        forall|k: int| j <= k < s.len() ==> is_white(s[k]),
    ensures
        trim_end(s) == trim_end(s.take(j)),
    decreases s.len() - j,
{
    if j < s.len() {
        assert(s.drop_last().take(j) =~= s.take(j));
        lemma_trim_end_take(s.drop_last(), j);
    } else {
        assert(s.take(j) =~= s);
    }
}

/// Index of the first character of `cs` at or after `from` that is not white
/// space, or `cs.len()`.
fn skip_white(cs: &Vec<char>, from: usize) -> (r: usize)
    requires
        from <= cs.len(),
    ensures
        from <= r <= cs.len(),
        forall|k: int| from <= k < r ==> is_white(cs@[k]),
        r < cs.len() ==> !is_white(cs@[r as int]),
{
    let mut i = from;
    while i < cs.len() && is_white_exec(cs[i])
        invariant
            from <= i <= cs.len(),
            forall|k: int| from <= k < i ==> is_white(cs@[k]),
        decreases cs.len() - i,
    {
        i = i + 1;
    }
    i
}

/// Removes leading and trailing white space.
pub fn trim_str(s: &str) -> (r: String)
    ensures
        r@ == trim(s@),
{
    let cs = chars_of(s);
    let a = skip_white(&cs, 0);
    proof {
        lemma_trim_start_skip(s@, a as int);
    }
    let mut b = cs.len();
    while b > a && is_white_exec(cs[b - 1])
        invariant
            a <= b <= cs.len(),
            cs@ == s@,
            forall|k: int| b <= k < cs.len() ==> is_white(cs@[k]),
        decreases b,
    {
        b = b - 1;
    }
    let ghost t = s@.skip(a as int);
    proof {
        if a < cs.len() {
            assert(!is_white(t[0]));
            assert(trim_start(t) == t);
        } else {
            assert(t.len() == 0);
        }
        lemma_trim_end_take(t, b - a);
        assert(t.take(b - a) =~= s@.subrange(a as int, b as int));
        let u = s@.subrange(a as int, b as int);
        if b > a {
            assert(u.last() == cs@[b - 1]);
        }
    }
    String::from_str(s.substring_char(a, b))
}

/// Whether every character of `s` is white space.
pub fn is_blank_str(s: &str) -> (r: bool)
    ensures
        r == is_blank(s@),
{
    let cs = chars_of(s);
    let a = skip_white(&cs, 0);
    a == cs.len()
}

/// `p` is a prefix of `s`.
pub open spec fn starts_with(s: Seq<char>, p: Seq<char>) -> bool {
    p.len() <= s.len() && s.take(p.len() as int) == p
}

pub fn starts_with_str(s: &str, p: &str) -> (r: bool)
    ensures
        r == starts_with(s@, p@),
{
    let cs = chars_of(s);
    let ps = chars_of(p);
    let r = occurs_at_exec(&cs, &ps, 0);
    assert(r == starts_with(s@, p@)) by {
        if p@.len() <= s@.len() {
            assert(s@.take(p@.len() as int) =~= s@.subrange(0, p@.len() as int));
        }
    }
    r
}

/// `s` with its leading white space removed; the index where that rest starts.
pub fn trim_start_str(s: &str) -> (r: String)
    ensures
        r@ == trim_start(s@),
{
    let cs = chars_of(s);
    let a = skip_white(&cs, 0);
    proof {
        lemma_trim_start_skip(s@, a as int);
        let t = s@.skip(a as int);
        if a < cs.len() {
            assert(!is_white(t[0]));
        }
        assert(s@.subrange(a as int, s@.len() as int) =~= t);
    }
    String::from_str(s.substring_char(a, cs.len()))
}


/// Number of characters before the first line feed of `s` (all of them if
/// there is none).
pub open spec fn first_nl(s: Seq<char>) -> nat
    decreases s.len(),
{
    if s.len() == 0 || s[0] == '\n' {
        0
    } else {
        1 + first_nl(s.drop_first())
    }
}

/// A line without the carriage return that may end it.
pub open spec fn strip_cr(l: Seq<char>) -> Seq<char> {
    if l.len() > 0 && l.last() == '\r' {
        l.drop_last()
    } else {
        l
    }
}

/// The lines of `s`, as `str::lines` gives them: split at line feeds, a final
/// line feed ends the last line, and a carriage return before a line feed is
/// dropped (one that ends the text is kept).
pub open spec fn lines(s: Seq<char>) -> Seq<Seq<char>>
    decreases s.len(),
{
    if s.len() == 0 {
        seq![]
    } else {
        let e = first_nl(s);
        let k = if e < s.len() {
            e + 1
        } else {
            s.len()
        };
        let line = if e < s.len() {
            strip_cr(s.take(e as int))
        } else {
            s.take(e as int)
        };
        seq![line] + lines(s.skip(k as int))
    }
}

/// The views of a sequence of strings.
pub open spec fn views(v: Seq<String>) -> Seq<Seq<char>> {
    v.map_values(|x: String| x@)
}

/// The parts of `ls` with `sep` between each two neighbours.
pub open spec fn join(ls: Seq<Seq<char>>, sep: Seq<char>) -> Seq<char>
    decreases ls.len(),
{
    if ls.len() == 0 {
        seq![]
    } else if ls.len() == 1 {
        ls[0]
    } else {
        join(ls.drop_last(), sep) + sep + ls.last()
    }
}

proof fn lemma_first_nl_skip(s: Seq<char>, i: int)
    requires
        0 <= i <= s.len(),
        forall|k: int| 0 <= k < i ==> s[k] != '\n',
    ensures
        first_nl(s) == i + first_nl(s.skip(i)),
    decreases i,
{
    if i > 0 {
        assert(s.drop_first().skip(i - 1) =~= s.skip(i));
        lemma_first_nl_skip(s.drop_first(), i - 1);
    } else {
        assert(s.skip(0) =~= s);
    }
}

/// A carriage return at the end of `cs[start..end]` is left out.
fn line_end(cs: &Vec<char>, start: usize, end: usize) -> (r: usize)
    requires
        start <= end <= cs.len(),
    ensures
        start <= r <= end,
        cs@.subrange(start as int, r as int) == strip_cr(cs@.subrange(start as int, end as int)),
{
    let ghost l = cs@.subrange(start as int, end as int);
    if end > start && cs[end - 1] == '\r' {
        assert(l.drop_last() =~= cs@.subrange(start as int, end - 1));
        end - 1
    } else {
        end
    }
}

/// Splits `s` into its lines.
pub fn split_lines(s: &str) -> (r: Vec<String>)
    ensures
        views(r@) == lines(s@),
{
    let cs = chars_of(s);
    let n = cs.len();
    let mut out: Vec<String> = Vec::new();
    let mut start: usize = 0;
    let mut i: usize = 0;
    assert(s@.skip(0) =~= s@);
    assert(views(out@) =~= Seq::<Seq<char>>::empty());
    loop
        invariant
            cs@ == s@,
            n == s@.len(),
            start <= i,
            i <= n,
            start <= n,
            forall|k: int| start <= k < i ==> s@[k] != '\n',
            lines(s@) == views(out@) + lines(s@.skip(start as int)),
        decreases n - i,
    {
        if i == n || cs[i] == '\n' {
            if i < n || start < n {
                let ghost r = s@.skip(start as int);
                proof {
                    lemma_first_nl_skip(r, i - start);
                    assert(r.skip(i - start) =~= s@.skip(i as int));
                    if i < n {
                        assert(s@.skip(i as int)[0] == '\n');
                    }
                    assert(first_nl(r) == i - start);
                    assert(r.take(i - start) =~= s@.subrange(start as int, i as int));
                    if i < n {
                        assert(r.skip(i - start + 1) =~= s@.skip(i + 1));
                    } else {
                        assert(r.skip(r.len() as int) =~= s@.skip(n as int));
                    }
                }
                let e = if i < n {
                    line_end(&cs, start, i)
                } else {
                    i
                };
                let line = String::from_str(s.substring_char(start, e));
                let ghost prev = out@;
                out.push(line);
                proof {
                    assert(views(out@) =~= views(prev).push(line@));
                }
            }
            if i < n {
                start = i + 1;
            } else {
                start = n;
            }
            if i == n {
                assert(s@.skip(n as int) =~= Seq::<char>::empty());
                assert(views(out@) =~= lines(s@));
                return out;
            }
        }
        i = i + 1;
    }
}

/// Joins `parts` with `sep` between each two neighbours.
pub fn join_strs(parts: &Vec<String>, sep: &str) -> (r: String)
    ensures
        r@ == join(views(parts@), sep@),
{
    let mut out = String::new();
    let mut i: usize = 0;
    while i < parts.len()
        invariant
            i <= parts.len(),
            out@ == join(views(parts@.take(i as int)), sep@),
        decreases parts.len() - i,
    {
        let ghost before = views(parts@.take(i as int));
        if i > 0 {
            out.append(sep);
        }
        out.append(parts[i].as_str());
        proof {
            let after = views(parts@.take(i + 1));
            assert(after.drop_last() =~= before);
            assert(after.last() == parts@[i as int]@);
            if i == 0 {
                assert(after.len() == 1);
            }
        }
        i = i + 1;
    }
    assert(parts@.take(parts.len() as int) =~= parts@);
    out
}

/// The index of the last occurrence of `p` in `cs`.
pub fn last_occurrence(cs: &Vec<char>, p: &Vec<char>) -> (r: Option<usize>)
    ensures
        match r {
            Some(k) => occurs_at(cs@, p@, k as int) && forall|j: int|
                k < j ==> !occurs_at(cs@, p@, j),
            None => !contains(cs@, p@),
        },
{
    let mut j = cs.len();
    loop
        invariant
            j <= cs.len(),
            forall|k: int| j < k ==> !occurs_at(cs@, p@, k),
        decreases j,
    {
        if occurs_at_exec(cs, p, j) {
            return Some(j);
        }
        if j == 0 {
            return None;
        }
        j = j - 1;
    }
}


/// Whether two strings hold the same characters.
pub fn eq_str(a: &str, b: &str) -> (r: bool)
    ensures
        r == (a@ == b@),
{
    let x = chars_of(a);
    let y = chars_of(b);
    if x.len() != y.len() {
        assert(a@.len() != b@.len());
        return false;
    }
    let mut i: usize = 0;
    while i < x.len()
        invariant
            x@ == a@,
            y@ == b@,
            x.len() == y.len(),
            i <= x.len(),
            forall|k: int| 0 <= k < i ==> x@[k] == y@[k],
        decreases x.len() - i,
    {
        if x[i] != y[i] {
            assert(a@[i as int] != b@[i as int]);
            return false;
        }
        i = i + 1;
    }
    assert(x@ =~= y@);
    true
}


/// Whether `name` is one of the strings of `list`.
pub fn in_list(name: &str, list: &Vec<String>) -> (r: bool)
    ensures
        r == views(list@).contains(name@),
{
    let mut i: usize = 0;
    while i < list.len()
        invariant
            i <= list.len(),
            forall|k: int| 0 <= k < i ==> list@[k]@ != name@,
        decreases list.len() - i,
    {
        if eq_str(list[i].as_str(), name) {
            assert(views(list@)[i as int] == name@);
            return true;
        }
        i = i + 1;
    }
    proof {
        if views(list@).contains(name@) {
            let k = choose|k: int| 0 <= k < views(list@).len() && views(list@)[k] == name@;
            assert(list@[k]@ == name@);
        }
    }
    false
}


pub open spec fn digit(d: nat) -> char {
    if d == 0 {
        '0'
    } else if d == 1 {
        '1'
    } else if d == 2 {
        '2'
    } else if d == 3 {
        '3'
    } else if d == 4 {
        '4'
    } else if d == 5 {
        '5'
    } else if d == 6 {
        '6'
    } else if d == 7 {
        '7'
    } else if d == 8 {
        '8'
    } else {
        '9'
    }
}

/// The decimal digits of `n`.
pub open spec fn decimal(n: nat) -> Seq<char>
    decreases n,
{
    if n < 10 {
        seq![digit(n)]
    } else {
        decimal(n / 10).push(digit(n % 10))
    }
}

fn digit_str(d: usize) -> (r: &'static str)
    requires
        d < 10,
    ensures
        r@ == seq![digit(d as nat)],
{
    proof {
        reveal_strlit("0");
        reveal_strlit("1");
        reveal_strlit("2");
        reveal_strlit("3");
        reveal_strlit("4");
        reveal_strlit("5");
        reveal_strlit("6");
        reveal_strlit("7");
        reveal_strlit("8");
        reveal_strlit("9");
    }
    let r = if d == 0 {
        "0"
    } else if d == 1 {
        "1"
    } else if d == 2 {
        "2"
    } else if d == 3 {
        "3"
    } else if d == 4 {
        "4"
    } else if d == 5 {
        "5"
    } else if d == 6 {
        "6"
    } else if d == 7 {
        "7"
    } else if d == 8 {
        "8"
    } else {
        "9"
    };
    assert(r@ =~= seq![digit(d as nat)]);
    r
}

/// Appends the decimal digits of `n`.
pub fn push_decimal(out: &mut String, n: usize)
    ensures
        final(out)@ == old(out)@ + decimal(n as nat),
    decreases n,
{
    if n >= 10 {
        push_decimal(out, n / 10);
    }
    out.append(digit_str(n % 10));
    assert(out@ =~= old(out)@ + decimal(n as nat));
}

} // verus!
