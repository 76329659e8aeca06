//! Text helpers the agent needs, each with its meaning stated as a spec
//! function over the characters of a string.

use vstd::prelude::*;

verus! {

/// The characters with the Unicode `White_Space` property: the characters
/// that `str::trim` removes from both ends of a string.
pub open spec fn is_white_space(c: char) -> bool {
    let u = c as u32;
    ||| 0x09 <= u <= 0x0d
    ||| u == 0x20
    ||| u == 0x85
    ||| u == 0xa0
    ||| u == 0x1680
    ||| 0x2000 <= u <= 0x200a
    ||| u == 0x2028
    ||| u == 0x2029
    ||| u == 0x202f
    ||| u == 0x205f
    ||| u == 0x3000
}

/// `s` without its leading white space.
pub open spec fn trim_start(s: Seq<char>) -> Seq<char>
    decreases s.len(),
{
    if s.len() > 0 && is_white_space(s[0]) {
        trim_start(s.drop_first())
    } else {
        s
    }
}

/// `s` without its trailing white space.
pub open spec fn trim_end(s: Seq<char>) -> Seq<char>
    decreases s.len(),
{
    if s.len() > 0 && is_white_space(s.last()) {
        trim_end(s.drop_last())
    } else {
        s
    }
}

/// `s` without white space at either end.
pub open spec fn trimmed(s: Seq<char>) -> Seq<char> {
    trim_end(trim_start(s))
}

pub fn is_white_space_char(c: char) -> (b: bool)
    ensures
        b == is_white_space(c),
{
    let u = c as u32;
    (0x09 <= u && u <= 0x0d) || u == 0x20 || u == 0x85 || u == 0xa0 || u == 0x1680 || (0x2000
        <= u && u <= 0x200a) || u == 0x2028 || u == 0x2029 || u == 0x202f || u == 0x205f || u
        == 0x3000
}

/// Copies `s` without the white space at either end.
pub fn trim(s: &str) -> (res: String)
    ensures
        res@ == trimmed(s@),
{
    let n = s.unicode_len();
    let mut start: usize = 0;
    assert(s@.subrange(0, n as int) =~= s@);
    while start < n && is_white_space_char(s.get_char(start))
        invariant
            n == s@.len(),
            start <= n,
            trim_start(s@) == trim_start(s@.subrange(start as int, n as int)),
        decreases n - start,
    {
        assert(s@.subrange(start + 1, n as int) =~= s@.subrange(start as int, n as int).drop_first());
        start = start + 1;
    }
    assert(trim_start(s@) == s@.subrange(start as int, n as int));
    let mut end: usize = n;
    while end > start && is_white_space_char(s.get_char(end - 1))
        invariant
            n == s@.len(),
            start <= end <= n,
            trimmed(s@) == trim_end(s@.subrange(start as int, end as int)),
        decreases end - start,
    {
        assert(s@.subrange(start as int, end - 1) =~= s@.subrange(start as int, end as int).drop_last());
        end = end - 1;
    }
    assert(trimmed(s@) == s@.subrange(start as int, end as int));
    String::from_str(s.substring_char(start, end))
}

/// Whether two texts hold the same characters.
pub fn text_eq(a: &str, b: &str) -> (res: bool)
    ensures
        res == (a@ == b@),
{
    let n = a.unicode_len();
    let m = b.unicode_len();
    if n != m {
        return false;
    }
    let mut i: usize = 0;
    while i < n
        invariant
            n == a@.len(),
            m == b@.len(),
            n == m,
            i <= n,
            forall|j: int| 0 <= j < i ==> a@[j] == b@[j],
        decreases n - i,
    {
        if a.get_char(i) != b.get_char(i) {
            return false;
        }
        i = i + 1;
    }
    assert(a@ =~= b@);
    true
}

proof fn lemma_trim_start_shape(s: Seq<char>)
    ensures
        trim_start(s).len() <= s.len(),
        trim_start(s) == s.subrange(s.len() - trim_start(s).len(), s.len() as int),
        trim_start(s).len() > 0 ==> !is_white_space(trim_start(s)[0]),
    decreases s.len(),
{
    if s.len() > 0 && is_white_space(s[0]) {
        lemma_trim_start_shape(s.drop_first());
        let t = trim_start(s.drop_first());
        assert(s.drop_first().subrange(s.drop_first().len() - t.len(), s.drop_first().len() as int)
            =~= s.subrange(s.len() - t.len(), s.len() as int));
    } else {
        assert(s.subrange(0, s.len() as int) =~= s);
    }
}

proof fn lemma_trim_end_shape(s: Seq<char>)
    ensures
        trim_end(s).len() <= s.len(),
        trim_end(s) == s.subrange(0, trim_end(s).len() as int),
        trim_end(s).len() > 0 ==> !is_white_space(trim_end(s).last()),
    decreases s.len(),
{
    if s.len() > 0 && is_white_space(s.last()) {
        lemma_trim_end_shape(s.drop_last());
        let t = trim_end(s.drop_last());
        assert(s.drop_last().subrange(0, t.len() as int) =~= s.subrange(0, t.len() as int));
    } else {
        assert(s.subrange(0, s.len() as int) =~= s);
    }
}

/// Trimmed text neither begins nor ends with white space, so trimming it
/// again changes nothing.
pub proof fn lemma_trimmed_idempotent(s: Seq<char>)
    ensures
        trimmed(trimmed(s)) == trimmed(s),
        trimmed(s).len() > 0 ==> !is_white_space(trimmed(s)[0]) && !is_white_space(
            trimmed(s).last(),
        ),
{
    let ts = trim_start(s);
    let u = trim_end(ts);
    lemma_trim_start_shape(s);
    lemma_trim_end_shape(ts);
    if u.len() > 0 {
        assert(u[0] == ts[0]);
        assert(trim_start(u) == u);
        assert(trim_end(u) == u);
    }
}

/// The two characters `__` that join a provider's name and a tool's name.
pub open spec fn separator() -> Seq<char> {
    seq!['_', '_']
}

/// The separator `__` starts at index `i` of `s`.
pub open spec fn separator_at(s: Seq<char>, i: int) -> bool {
    &&& 0 <= i
    &&& i + 1 < s.len()
    &&& s[i] == '_'
    &&& s[i + 1] == '_'
}

/// `s` holds the separator `__` somewhere.
pub open spec fn has_separator(s: Seq<char>) -> bool {
    exists|i: int| separator_at(s, i)
}

/// The first index at or after `i` where the separator starts.
pub open spec fn first_separator_from(s: Seq<char>, i: nat) -> Option<nat>
    decreases s.len() - i,
{
    if i + 1 >= s.len() {
        None
    } else if separator_at(s, i as int) {
        Some(i)
    } else {
        first_separator_from(s, i + 1)
    }
}

/// The first index where the separator starts, as `str::find("__")` gives it.
pub open spec fn first_separator(s: Seq<char>) -> Option<nat> {
    first_separator_from(s, 0)
}

/// A qualified name `provider__function` taken apart at its first separator.
pub open spec fn split_qualified(s: Seq<char>) -> Option<(Seq<char>, Seq<char>)> {
    match first_separator(s) {
        Some(k) => Some((s.subrange(0, k as int), s.subrange(k + 2int, s.len() as int))),
        None => None,
    }
}

/// The name under which a tool of a provider is offered to the model.
pub open spec fn qualify(provider: Seq<char>, function: Seq<char>) -> Seq<char> {
    provider + separator() + function
}

/// A provider name that cannot be mistaken for part of a separator: it holds
/// no `__` and does not end with `_`.
pub open spec fn is_plain_provider_name(p: Seq<char>) -> bool {
    &&& !has_separator(p)
    &&& (p.len() == 0 || p.last() != '_')
}

pub proof fn lemma_first_separator_from(s: Seq<char>, i: nat)
    ensures
        match first_separator_from(s, i) {
            Some(k) => {
                &&& i <= k
                &&& separator_at(s, k as int)
                &&& forall|j: int| i <= j < k ==> !separator_at(s, j)
            },
            None => forall|j: int| i <= j ==> !separator_at(s, j),
        },
    decreases s.len() - i,
{
    if i + 1 >= s.len() {
    } else if separator_at(s, i as int) {
    } else {
        lemma_first_separator_from(s, i + 1);
    }
}

/// The first index at which `s` holds `__`.
pub fn find_separator(s: &str) -> (res: Option<usize>)
    ensures
        match res {
            Some(k) => first_separator(s@) == Some(k as nat),
            None => first_separator(s@) is None,
        },
{
    let n = s.unicode_len();
    let mut i: usize = 0;
    while n > 0 && i < n - 1
        invariant
            n == s@.len(),
            i <= n,
            first_separator(s@) == first_separator_from(s@, i as nat),
        decreases n - i,
    {
        if s.get_char(i) == '_' && s.get_char(i + 1) == '_' {
            return Some(i);
        }
        i = i + 1;
    }
    None
}

/// Takes `provider__function` apart at the first `__`: the part before and
/// the part after it, or `None` where the name holds no `__`.
pub fn split_qualified_name(name: &str) -> (res: Option<(String, String)>)
    ensures
        match res {
            Some((p, f)) => split_qualified(name@) == Some((p@, f@)),
            None => split_qualified(name@) is None,
        },
{
    match find_separator(name) {
        Some(k) => {
            let n = name.unicode_len();
            proof {
                lemma_first_separator_from(name@, 0);
            }
            let provider = String::from_str(name.substring_char(0, k));
            let function = String::from_str(name.substring_char(k + 2, n));
            Some((provider, function))
        },
        None => None,
    }
}

/// Joins a provider's name and a tool's name with `__`.
pub fn qualified_name(provider: &str, function: &str) -> (res: String)
    ensures
        res@ == qualify(provider@, function@),
{
    let mut res = String::from_str(provider);
    let sep = "__";
    proof {
        reveal_strlit("__");
    }
    res.append(sep);
    res.append(function);
    res
}

/// Taking a qualified name apart gives back the provider's and the tool's
/// names whenever the provider's name is plain.
pub proof fn lemma_split_qualify(provider: Seq<char>, function: Seq<char>)
    requires
        is_plain_provider_name(provider),
    ensures
        split_qualified(qualify(provider, function)) == Some((provider, function)),
{
    let s = qualify(provider, function);
    let k = provider.len();
    assert(separator_at(s, k as int));
    assert forall|j: int| 0 <= j < k implies !separator_at(s, j) by {
        if separator_at(s, j) {
            if j + 1 < k {
                assert(separator_at(provider, j));
            } else {
                assert(provider.last() == s[j]);
            }
        }
    }
    lemma_first_separator_from(s, 0);
    let r = first_separator_from(s, 0);
    match r {
        Some(m) => {
            if m < k {
                assert(!separator_at(s, m as int));
            }
            if m > k {
                assert(!separator_at(s, k as int));
            }
        },
        None => {
            assert(!separator_at(s, k as int));
        },
    }
    assert(s.subrange(0, k as int) =~= provider);
    assert(s.subrange(k + 2int, s.len() as int) =~= function);
}

/// Whatever splits into two parts is those parts joined by `__`, and the first
/// part is a plain provider name.
pub proof fn lemma_qualify_split(s: Seq<char>)
    ensures
        match split_qualified(s) {
            Some((p, f)) => s == qualify(p, f) && is_plain_provider_name(p),
            None => !has_separator(s),
        },
{
    lemma_first_separator_from(s, 0);
    if first_separator(s) is None {
        return;
    }
    let k = first_separator(s)->0;
    let p = s.subrange(0, k as int);
    let f = s.subrange(k + 2int, s.len() as int);
    assert(s =~= p + separator() + f);
    assert forall|j: int| !separator_at(p, j) by {
        if separator_at(p, j) {
            assert(separator_at(s, j));
        }
    }
    if p.len() > 0 && p.last() == '_' {
        assert(separator_at(s, k - 1));
    }
}

/// The character of the decimal digit `d`.
pub open spec fn digit_char(d: int) -> char {
    if d == 0 {
        '0'
    } else if d == 1 {
        '1'
    } else if d == 2 {
        '2'
    } else if d == 3 {
        '3'
    } else if d == 4 {
        '4'
    } else if d == 5 {
        '5'
    } else if d == 6 {
        '6'
    } else if d == 7 {
        '7'
    } else if d == 8 {
        '8'
    } else {
        '9'
    }
}

/// The decimal notation of `n`, without leading zeros: what `Display` writes
/// for an unsigned integer.
pub open spec fn decimal(n: nat) -> Seq<char>
    decreases n,
{
    if n < 10 {
        seq![digit_char(n as int)]
    } else {
        decimal(n / 10).push(digit_char((n % 10) as int))
    }
}

fn digit_text(d: u32) -> (res: String)
    requires
        d < 10,
    ensures
        res@ == seq![digit_char(d as int)],
{
    proof {
        reveal_strlit("0");
        reveal_strlit("1");
        reveal_strlit("2");
        reveal_strlit("3");
        reveal_strlit("4");
        reveal_strlit("5");
        reveal_strlit("6");
        reveal_strlit("7");
        reveal_strlit("8");
        reveal_strlit("9");
    }
    let t = if d == 0 {
        "0"
    } else if d == 1 {
        "1"
    } else if d == 2 {
        "2"
    } else if d == 3 {
        "3"
    } else if d == 4 {
        "4"
    } else if d == 5 {
        "5"
    } else if d == 6 {
        "6"
    } else if d == 7 {
        "7"
    } else if d == 8 {
        "8"
    } else {
        "9"
    };
    String::from_str(t)
}

/// The decimal notation of `n`.
pub fn decimal_text(n: u32) -> (res: String)
    ensures
        res@ == decimal(n as nat),
    decreases n,
{
    if n < 10 {
        digit_text(n)
    } else {
        let mut res = decimal_text(n / 10);
        let last = digit_text(n % 10);
        res.append(last.as_str());
        assert(res@ =~= decimal(n as nat));
        res
    }
}

} // verus!
