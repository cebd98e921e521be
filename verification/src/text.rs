//! Text helpers on character sequences: scanning, path joining and the
//! name that a path gives to what it points at.

use vstd::prelude::*;
use vstd::string::*;

verus! {

/// The index of the first occurrence of `c` in `s` at or after `from`, or
/// the length of `s` when there is none.
pub open spec fn first_at(s: Seq<char>, c: char, from: int) -> int
    decreases s.len() - from,
{
    if from < 0 || from >= s.len() {
        s.len() as int
    } else if s[from] == c {
        from
    } else {
        first_at(s, c, from + 1)
    }
}

/// The index of the last occurrence of `c` in `s` before `end`, or -1 when
/// there is none.
pub open spec fn last_before(s: Seq<char>, c: char, end: int) -> int
    decreases end,
{
    if end <= 0 || end > s.len() {
        -1
    } else if s[end - 1] == c {
        end - 1
    } else {
        last_before(s, c, end - 1)
    }
}

/// Whether `c` is ASCII whitespace: space, tab, line feed, form feed or
/// carriage return.
pub open spec fn is_whitespace(c: char) -> bool {
    c == ' ' || c == '\t' || c == '\n' || c == '\x0C' || c == '\r'
}

/// The first index at or after `from` whose character is whitespace
/// (`blank`) or is not (`!blank`), or the length of `s` when there is none.
pub open spec fn scan(s: Seq<char>, blank: bool, from: int) -> int
    decreases s.len() - from,
{
    if from < 0 || from >= s.len() {
        s.len() as int
    } else if is_whitespace(s[from]) == blank {
        from
    } else {
        scan(s, blank, from + 1)
    }
}

/// Whether `s` holds the character `c`.
pub open spec fn holds(s: Seq<char>, c: char) -> bool {
    exists|i: int| 0 <= i < s.len() && s[i] == c
}

/// The texts that a sequence of strings holds.
pub open spec fn texts(v: Seq<String>) -> Seq<Seq<char>> {
    Seq::new(v.len(), |i: int| v[i]@)
}

/// `first_at` stays within the sequence and finds `c` exactly where it says.
pub proof fn first_at_bounds(s: Seq<char>, c: char, from: int)
    requires
        0 <= from <= s.len(),
    ensures
        from <= first_at(s, c, from) <= s.len(),
        first_at(s, c, from) < s.len() ==> s[first_at(s, c, from)] == c,
        forall|j: int| from <= j < first_at(s, c, from) ==> s[j] != c,
    decreases s.len() - from,
{
    if from < s.len() && s[from] != c {
        first_at_bounds(s, c, from + 1);
    }
}

/// `last_before` stays below `end` and finds `c` exactly where it says.
pub proof fn last_before_bounds(s: Seq<char>, c: char, end: int)
    requires
        0 <= end <= s.len(),
    ensures
        -1 <= last_before(s, c, end) < end || (end == 0 && last_before(s, c, end) == -1),
        last_before(s, c, end) >= 0 ==> s[last_before(s, c, end)] == c,
        forall|j: int| last_before(s, c, end) < j < end ==> s[j] != c,
    decreases end,
{
    if end > 0 && s[end - 1] != c {
        last_before_bounds(s, c, end - 1);
    }
}

/// Whether a character is ASCII whitespace.
pub fn is_space(c: char) -> (r: bool)
    ensures
        r == is_whitespace(c),
{
    c == ' ' || c == '\t' || c == '\n' || c == '\x0C' || c == '\r'
}

/// Finds the first occurrence of `c` at or after the character index `from`.
pub fn find_char(s: &str, c: char, from: usize) -> (r: usize)
    requires
        from <= s@.len(),
    ensures
        r == first_at(s@, c, from as int),
        from <= r <= s@.len(),
{
    let n: usize = s.unicode_len();
    let mut i: usize = from;
    while i < n
        invariant
            from <= i <= n,
            n == s@.len(),
            first_at(s@, c, from as int) == first_at(s@, c, i as int),
        decreases n - i,
    {
        if s.get_char(i) == c {
            return i;
        }
        i += 1;
    }
    i
}

/// Finds the last occurrence of `c` before the character index `end`.
pub fn find_last_char(s: &str, c: char, end: usize) -> (r: Option<usize>)
    requires
        end <= s@.len(),
    ensures
        r is None <==> last_before(s@, c, end as int) == -1,
        r matches Some(i) ==> i == last_before(s@, c, end as int) && i < end,
{
    let mut i: usize = end;
    while i > 0
        invariant
            i <= end <= s@.len(),
            last_before(s@, c, end as int) == last_before(s@, c, i as int),
        decreases i,
    {
        if s.get_char(i - 1) == c {
            return Some(i - 1);
        }
        i -= 1;
    }
    None
}

/// Finds the first whitespace (`blank`) or non-whitespace character at or
/// after the character index `from`.
pub fn scan_from(s: &str, blank: bool, from: usize) -> (r: usize)
    requires
        from <= s@.len(),
    ensures
        r == scan(s@, blank, from as int),
        from <= r <= s@.len(),
{
    let n: usize = s.unicode_len();
    let mut i: usize = from;
    while i < n
        invariant
            from <= i <= n,
            n == s@.len(),
            scan(s@, blank, from as int) == scan(s@, blank, i as int),
        decreases n - i,
    {
        if is_space(s.get_char(i)) == blank {
            return i;
        }
        i += 1;
    }
    i
}

/// Whether the text holds the character `c`.
pub fn contains_char(s: &str, c: char) -> (r: bool)
    ensures
        r == holds(s@, c),
{
    let i: usize = find_char(s, c, 0);
    proof {
        first_at_bounds(s@, c, 0);
    }
    i < s.unicode_len()
}

/// Whether two texts hold the same characters.
pub fn same_text(a: &str, b: &str) -> (r: bool)
    ensures
        r == (a@ == b@),
{
    let n: usize = a.unicode_len();
    if b.unicode_len() != n {
        return false;
    }
    let mut i: usize = 0;
    while i < n
        invariant
            i <= n,
            n == a@.len(),
            n == b@.len(),
            forall|j: int| 0 <= j < i ==> a@[j] == b@[j],
        decreases n - i,
    {
        if a.get_char(i) != b.get_char(i) {
            return false;
        }
        i += 1;
    }
    assert(a@ =~= b@);
    true
}

/// The characters of `s` from index `from` up to `to`, as an owned string.
pub fn slice_of(s: &str, from: usize, to: usize) -> (r: String)
    requires
        from <= to <= s@.len(),
    ensures
        r@ == s@.subrange(from as int, to as int),
{
    String::from_str(s.substring_char(from, to))
}

/// A path with one more component: `name` itself where it is absolute,
/// else `base` and `name` with a single separator between them (none after
/// an empty base or one that already ends in a separator).
pub open spec fn joined(base: Seq<char>, name: Seq<char>) -> Seq<char> {
    if name.len() > 0 && name[0] == '/' {
        name
    } else if base.len() == 0 || base[base.len() - 1] == '/' {
        base + name
    } else {
        base + seq!['/'] + name
    }
}

/// Joins a component to a path.
pub fn join_path(base: &str, name: &str) -> (r: String)
    ensures
        r@ == joined(base@, name@),
{
    let n: usize = base.unicode_len();
    let m: usize = name.unicode_len();
    if m > 0 && name.get_char(0) == '/' {
        String::from_str(name)
    } else if n == 0 || base.get_char(n - 1) == '/' {
        String::from_str(base).concat(name)
    } else {
        proof {
            reveal_strlit("/");
            assert("/"@ =~= seq!['/']);
        }
        String::from_str(base).concat("/").concat(name)
    }
}

/// The last component of a path: what follows its last separator.
pub open spec fn last_component(path: Seq<char>) -> Seq<char> {
    path.subrange(last_before(path, '/', path.len() as int) + 1, path.len() as int)
}

/// A file name without its extension: the whole name where it holds no dot
/// or only a leading one, else what stands before its last dot.
pub open spec fn without_extension(name: Seq<char>) -> Seq<char> {
    if last_before(name, '.', name.len() as int) <= 0 {
        name
    } else {
        name.subrange(0, last_before(name, '.', name.len() as int))
    }
}

/// Whether a path ends in a component that names something: not empty,
/// not `.` and not `..`.
pub open spec fn is_named(path: Seq<char>) -> bool {
    &&& last_component(path).len() > 0
    &&& last_component(path) != seq!['.']
    &&& last_component(path) != seq!['.', '.']
}

/// The name that a path gives to what it points at: its last component
/// without the extension.
pub open spec fn stem(path: Seq<char>) -> Seq<char> {
    without_extension(last_component(path))
}

/// Whether a name is a single path component that joins and reads back
/// unchanged: not empty, no separator, not `.`, and no dot but a leading
/// one, so that the name is its own stem.
pub open spec fn is_plain_name(name: Seq<char>) -> bool {
    &&& name.len() > 0
    &&& !holds(name, '/')
    &&& name != seq!['.']
    &&& last_before(name, '.', name.len() as int) <= 0
}

/// Whether the path ends in a component that names something.
pub fn has_name(path: &str) -> (r: bool)
    ensures
        r == is_named(path@),
{
    let n: usize = path.unicode_len();
    let start: usize = match find_last_char(path, '/', n) {
        Some(i) => i + 1,
        None => 0,
    };
    proof {
        last_before_bounds(path@, '/', n as int);
    }
    let len: usize = n - start;
    proof {
        assert(seq!['.'].len() == 1 && seq!['.'][0] == '.');
        assert(seq!['.', '.'].len() == 2 && seq!['.', '.'][0] == '.' && seq!['.', '.'][1] == '.');
    }
    if len == 0 {
        false
    } else if len == 1 {
        let c: char = path.get_char(start);
        assert(last_component(path@)[0] == c);
        assert(c == '.' ==> last_component(path@) =~= seq!['.']);
        c != '.'
    } else if len == 2 {
        let a: char = path.get_char(start);
        let b: char = path.get_char(start + 1);
        assert(last_component(path@)[0] == a && last_component(path@)[1] == b);
        assert(a == '.' && b == '.' ==> last_component(path@) =~= seq!['.', '.']);
        !(a == '.' && b == '.')
    } else {
        true
    }
}

/// The name that a path gives to what it points at.
pub fn path_stem(path: &str) -> (r: String)
    ensures
        r@ == stem(path@),
{
    let n: usize = path.unicode_len();
    let start: usize = match find_last_char(path, '/', n) {
        Some(i) => i + 1,
        None => 0,
    };
    proof {
        last_before_bounds(path@, '/', n as int);
    }
    let name: &str = path.substring_char(start, n);
    let m: usize = n - start;
    proof {
        last_before_bounds(name@, '.', m as int);
    }
    match find_last_char(name, '.', m) {
        Some(d) => {
            if d == 0 {
                String::from_str(name)
            } else {
                slice_of(name, 0, d)
            }
        },
        None => String::from_str(name),
    }
}

/// A plain name joined to a store's root reads back as itself.
pub proof fn stem_of_joined(base: Seq<char>, name: Seq<char>)
    requires
        is_plain_name(name),
    ensures
        is_named(joined(base, name)),
        last_component(joined(base, name)) == name,
        stem(joined(base, name)) == name,
{
    let p = joined(base, name);
    let n = p.len() as int;
    assert(name[0] != '/');
    let k = n - name.len();
    assert(k >= 1 ==> p[k - 1] == '/');
    assert(forall|j: int| k <= j < n ==> p[j] == name[j - k]);
    last_before_bounds(p, '/', n);
    let l = last_before(p, '/', n);
    assert(l == k - 1) by {
        if l >= k {
            assert(p[l] == name[l - k]);
        }
        if l < k - 1 {
            assert(p[k - 1] != '/');
        }
    }
    assert(last_component(p) =~= name);
    assert(name != seq!['.', '.']) by {
        if name == seq!['.', '.'] {
            assert(name.len() == 2 && name[1] == '.');
            assert(last_before(name, '.', 2) == 1);
        }
    }
}

/// The character of a decimal digit.
pub open spec fn digit_char(d: int) -> char {
    if d == 0 {
        '0'
    } else if d == 1 {
        '1'
    } else if d == 2 {
        '2'
    } else if d == 3 {
        '3'
    } else if d == 4 {
        '4'
    } else if d == 5 {
        '5'
    } else if d == 6 {
        '6'
    } else if d == 7 {
        '7'
    } else if d == 8 {
        '8'
    } else {
        '9'
    }
}

/// A natural number in decimal, without leading zeros.
pub open spec fn decimal_digits(n: nat) -> Seq<char>
    decreases n,
{
    if n < 10 {
        seq![digit_char(n as int)]
    } else {
        decimal_digits(n / 10).push(digit_char((n % 10) as int))
    }
}

/// An integer in decimal, with a minus sign where it is negative.
pub open spec fn decimal(n: int) -> Seq<char> {
    if n < 0 {
        seq!['-'] + decimal_digits((-n) as nat)
    } else {
        decimal_digits(n as nat)
    }
}

/// The text of one decimal digit.
fn digit_text(d: u64) -> (r: &'static str)
    requires
        d < 10,
    ensures
        r@ == seq![digit_char(d as int)],
{
    proof {
        reveal_strlit("0");
        reveal_strlit("1");
        reveal_strlit("2");
        reveal_strlit("3");
        reveal_strlit("4");
        reveal_strlit("5");
        reveal_strlit("6");
        reveal_strlit("7");
        reveal_strlit("8");
        reveal_strlit("9");
    }
    let r: &'static str = if d == 0 {
        "0"
    } else if d == 1 {
        "1"
    } else if d == 2 {
        "2"
    } else if d == 3 {
        "3"
    } else if d == 4 {
        "4"
    } else if d == 5 {
        "5"
    } else if d == 6 {
        "6"
    } else if d == 7 {
        "7"
    } else if d == 8 {
        "8"
    } else {
        "9"
    };
    assert(r@ =~= seq![digit_char(d as int)]);
    r
}

/// A natural number in decimal.
pub fn natural_text(n: u64) -> (r: String)
    ensures
        r@ == decimal_digits(n as nat),
    decreases n,
{
    if n < 10 {
        String::from_str(digit_text(n))
    } else {
        let r = natural_text(n / 10).concat(digit_text(n % 10));
        assert(r@ =~= decimal_digits((n / 10) as nat).push(digit_char((n % 10) as int)));
        r
    }
}

/// An integer in decimal.
pub fn decimal_text(n: i64) -> (r: String)
    ensures
        r@ == decimal(n as int),
{
    if n < 0 {
        let below: u64 = (-(n + 1)) as u64;
        let magnitude: u64 = below + 1;
        proof {
            reveal_strlit("-");
            assert("-"@ =~= seq!['-']);
        }
        String::from_str("-").concat(natural_text(magnitude).as_str())
    } else {
        natural_text(n as u64)
    }
}

/// The texts of a chain of failures, from the outermost context to the
/// root cause, with a colon and a space between each two.
pub open spec fn chained(chain: Seq<Seq<char>>) -> Seq<char>
    decreases chain.len(),
{
    if chain.len() == 0 {
        Seq::<char>::empty()
    } else if chain.len() == 1 {
        chain[0]
    } else {
        chained(chain.drop_last()) + ": "@ + chain.last()
    }
}

/// The line that reports a failure to the user: `error: `, then the chain
/// of its messages from the outermost context to the root cause.
pub fn error_report(chain: &Vec<String>) -> (r: String)
    ensures
        r@ == "error: "@ + chained(texts(chain@)),
{
    let mut out: String = String::from_str("error: ");
    let mut i: usize = 0;
    proof {
        assert(texts(chain@).take(0) =~= Seq::<Seq<char>>::empty());
        assert("error: "@ + Seq::<char>::empty() =~= "error: "@);
    }
    while i < chain.len()
        invariant
            i <= chain@.len(),
            out@ == "error: "@ + chained(texts(chain@).take(i as int)),
        decreases chain@.len() - i,
    {
        let ghost before = texts(chain@).take(i as int);
        let ghost next = texts(chain@).take(i as int + 1);
        proof {
            assert(next.drop_last() =~= before);
            assert(next.last() == chain@[i as int]@);
        }
        if i > 0 {
            out.append(": ");
            proof {
                assert(("error: "@ + chained(before)) + ": "@ + next.last() =~= "error: "@ + (
                chained(before) + ": "@ + next.last()));
            }
        } else {
            proof {
                assert(chained(next) == next[0]);
                assert(chained(before) =~= Seq::<char>::empty());
                assert("error: "@ + Seq::<char>::empty() =~= "error: "@);
            }
        }
        out.append(chain[i].as_str());
        i += 1;
    }
    proof {
        assert(texts(chain@).take(chain@.len() as int) =~= texts(chain@));
    }
    out
}

} // verus!
