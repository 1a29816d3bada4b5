//! Deployment versions: a semantic version tag (`major.minor.patch` with an
//! optional pre-release and build-metadata suffix) parsed from text, rendered
//! back to text, and resolved from either an explicit override or the
//! program's manifest.

use vstd::prelude::*;
use crate::FleetError;

verus! {

/// A semantic version tag for one program deployment. The suffix holds the
/// pre-release and build-metadata part verbatim, dashes and plus included
/// (empty when there is none).
#[derive(Debug)]
pub struct Version {
    pub major: u64,
    pub minor: u64,
    pub patch: u64,
    pub suffix: String,
}

/// The mathematical content of a version: the three numbers and the suffix
/// text.
#[verifier::ext_equal]
pub struct VersionV {
    pub major: u64,
    pub minor: u64,
    pub patch: u64,
    pub suffix: Seq<char>,
}

impl View for Version {
    type V = VersionV;

    open spec fn view(&self) -> VersionV {
        VersionV {
            major: self.major,
            minor: self.minor,
            patch: self.patch,
            suffix: self.suffix@,
        }
    }
}

impl PartialEq for Version {
    fn eq(&self, other: &Version) -> (r: bool) {
        self.major == other.major && self.minor == other.minor && self.patch == other.patch
            && self.suffix == other.suffix
    }
}

impl vstd::std_specs::cmp::PartialEqSpecImpl for Version {
    open spec fn obeys_eq_spec() -> bool {
        true
    }

    open spec fn eq_spec(&self, other: &Version) -> bool {
        self@ == other@
    }
}

/// One decimal digit character.
pub open spec fn is_digit(c: char) -> bool {
    '0' as u32 <= c as u32 && c as u32 <= '9' as u32
}

/// The numeric value of one digit character.
pub open spec fn digit_val(c: char) -> nat {
    (c as u32 - '0' as u32) as nat
}

/// The value of a digit string, most significant digit first.
pub open spec fn num_val(s: Seq<char>) -> nat
    decreases s.len(),
{
    if s.len() == 0 {
        0
    } else {
        num_val(s.drop_last()) * 10 + digit_val(s.last())
    }
}

/// A canonical decimal numeral: non-empty, all digits, no leading zero.
pub open spec fn is_numeral(s: Seq<char>) -> bool {
    &&& s.len() > 0
    &&& (forall|i: int| 0 <= i < s.len() ==> is_digit(s[i]))
    &&& (s.len() > 1 ==> s[0] != '0')
}

/// A character allowed inside a pre-release or build identifier: a digit, a
/// letter, or a dash.
pub open spec fn is_ident_char(c: char) -> bool {
    ||| is_digit(c)
    ||| 'A' as u32 <= c as u32 && c as u32 <= 'Z' as u32
    ||| 'a' as u32 <= c as u32 && c as u32 <= 'z' as u32
    ||| c == '-'
}

/// One dot-separated identifier: non-empty identifier characters; in the
/// pre-release part a purely numeric identifier must carry no leading zero.
pub open spec fn segment_ok(g: Seq<char>, pre: bool) -> bool {
    &&& g.len() > 0
    &&& (forall|k: int| 0 <= k < g.len() ==> is_ident_char(#[trigger] g[k]))
    &&& (pre && g.len() > 1 && (forall|k: int| 0 <= k < g.len() ==> is_digit(#[trigger] g[k]))
        ==> g[0] != '0')
}

/// The digit character for a value below ten.
pub open spec fn digit_char(d: nat) -> char {
    if d == 0 {
        '0'
    } else if d == 1 {
        '1'
    } else if d == 2 {
        '2'
    } else if d == 3 {
        '3'
    } else if d == 4 {
        '4'
    } else if d == 5 {
        '5'
    } else if d == 6 {
        '6'
    } else if d == 7 {
        '7'
    } else if d == 8 {
        '8'
    } else {
        '9'
    }
}

/// The canonical decimal rendering of a number.
pub open spec fn dec_rep(n: nat) -> Seq<char>
    decreases n,
{
    if n < 10 {
        seq![digit_char(n)]
    } else {
        dec_rep(n / 10).push(digit_char(n % 10))
    }
}

/// The index of the first occurrence of `c` in `s` at or after `from`.
pub open spec fn find_char(s: Seq<char>, c: char, from: nat) -> Option<nat>
    decreases s.len() - from,
    when from <= s.len()
{
    if from >= s.len() {
        None
    } else if s[from as int] == c {
        Some(from)
    } else {
        find_char(s, c, (from + 1) as nat)
    }
}

/// The index just past the run of digits starting at `from`.
pub open spec fn digits_end(s: Seq<char>, from: nat) -> nat
    decreases s.len() - from,
    when from <= s.len()
{
    if from >= s.len() {
        from
    } else if is_digit(s[from as int]) {
        digits_end(s, (from + 1) as nat)
    } else {
        from
    }
}

/// A non-empty sequence of dot-separated identifiers.
pub open spec fn valid_dotted(u: Seq<char>, pre: bool) -> bool
    decreases u.len(),
{
    match find_char(u, '.', 0) {
        None => segment_ok(u, pre),
        Some(i) => if i < u.len() {
            segment_ok(u.subrange(0, i as int), pre) && valid_dotted(
                u.subrange(i as int + 1, u.len() as int),
                pre,
            )
        } else {
            false
        },
    }
}

/// A version suffix: empty, or `-` and a pre-release part, or `+` and a
/// build-metadata part, or both in that order. Identifier characters only,
/// no empty identifiers; a second `+` cannot occur, since `+` is no
/// identifier character.
pub open spec fn valid_suffix(t: Seq<char>) -> bool {
    ||| t.len() == 0
    ||| (t.len() > 0 && t[0] == '-' && match find_char(t, '+', 0) {
        None => valid_dotted(t.subrange(1, t.len() as int), true),
        Some(p) => valid_dotted(t.subrange(1, p as int), true) && valid_dotted(
            t.subrange(p as int + 1, t.len() as int),
            false,
        ),
    })
    ||| (t.len() > 0 && t[0] == '+' && valid_dotted(t.subrange(1, t.len() as int), false))
}

/// What a version string means: three dot-separated canonical numerals, each
/// fitting in 64 bits, then a valid (possibly empty) suffix; anything else
/// is rejected.
pub open spec fn parse_version_spec(s: Seq<char>) -> Option<VersionV> {
    match find_char(s, '.', 0) {
        None => None,
        Some(i) => match find_char(s, '.', (i + 1) as nat) {
            None => None,
            Some(j) => {
                let k = digits_end(s, (j + 1) as nat);
                let a = s.subrange(0, i as int);
                let b = s.subrange(i as int + 1, j as int);
                let c = s.subrange(j as int + 1, k as int);
                let suf = s.subrange(k as int, s.len() as int);
                if is_numeral(a) && is_numeral(b) && is_numeral(c) && num_val(a) <= u64::MAX
                    && num_val(b) <= u64::MAX && num_val(c) <= u64::MAX && valid_suffix(suf) {
                    Some(
                        VersionV {
                            major: num_val(a) as u64,
                            minor: num_val(b) as u64,
                            patch: num_val(c) as u64,
                            suffix: suf,
                        },
                    )
                } else {
                    None
                }
            },
        },
    }
}

/// The canonical text of a version: the three numerals and the suffix
/// verbatim.
pub open spec fn version_rep(v: VersionV) -> Seq<char> {
    dec_rep(v.major as nat) + seq!['.'] + dec_rep(v.minor as nat) + seq!['.'] + dec_rep(
        v.patch as nat,
    ) + v.suffix
}

/// The canonical decimal rendering is a canonical numeral, and its value is
/// the number it renders.
proof fn lemma_dec_rep_digits(n: nat)
    ensures
        dec_rep(n).len() > 0,
        forall|i: int| 0 <= i < dec_rep(n).len() ==> is_digit(#[trigger] dec_rep(n)[i]),
        n > 0 ==> dec_rep(n)[0] != '0',
        dec_rep(n).len() == 1 ==> n < 10,
        num_val(dec_rep(n)) == n,
    decreases n,
{
    if n < 10 {
        assert(dec_rep(n) =~= seq![digit_char(n)]);
        assert(dec_rep(n).drop_last() =~= Seq::<char>::empty());
        assert(num_val(Seq::<char>::empty()) == 0);
        assert(digit_val(digit_char(n)) == n);
    } else {
        lemma_dec_rep_digits(n / 10);
        let prefix = dec_rep(n / 10);
        let whole = prefix.push(digit_char(n % 10));
        assert(dec_rep(n) =~= whole);
        assert(whole.drop_last() =~= prefix);
        assert(whole[0] == prefix[0]);
        assert(forall|i: int| 0 <= i < prefix.len() ==> whole[i] == prefix[i]);
        assert(num_val(whole) == num_val(prefix) * 10 + digit_val(digit_char((n % 10) as nat)));
        assert(digit_val(digit_char((n % 10) as nat)) == n % 10);
        assert(num_val(whole) == (n / 10) * 10 + n % 10);
        assert((n / 10) * 10 + n % 10 == n) by (nonlinear_arith);
    }
}

/// If `c` first occurs at `k` looking from `from`, the search finds `k`.
proof fn lemma_find_char_at(s: Seq<char>, c: char, from: int, k: int)
    requires
        0 <= from <= k < s.len(),
        s[k] == c,
        forall|j: int| from <= j < k ==> s[j] != c,
    ensures
        find_char(s, c, from as nat) == Some(k as nat),
    decreases k - from,
{
    if from < k {
        lemma_find_char_at(s, c, from + 1, k);
    }
}

/// If `c` does not occur at or after `from`, the search finds nothing.
proof fn lemma_find_char_none(s: Seq<char>, c: char, from: int)
    requires
        0 <= from <= s.len(),
        forall|j: int| from <= j < s.len() ==> s[j] != c,
    ensures
        find_char(s, c, from as nat) is None,
    decreases s.len() - from,
{
    if from < s.len() {
        lemma_find_char_none(s, c, from + 1);
    }
}

/// If digits run from `from` up to `k` and stop there, the digit run ends
/// at `k`.
proof fn lemma_digits_end_at(s: Seq<char>, from: int, k: int)
    requires
        0 <= from <= k <= s.len(),
        forall|j: int| from <= j < k ==> is_digit(s[j]),
        k == s.len() || !is_digit(s[k]),
    ensures
        digits_end(s, from as nat) == k as nat,
    decreases k - from,
{
    if from < k {
        lemma_digits_end_at(s, from + 1, k);
    }
}

/// The value of every prefix of a digit string is at most the whole value.
proof fn lemma_num_val_prefix(s: Seq<char>, i: int)
    requires
        0 <= i <= s.len(),
    ensures
        num_val(s.subrange(0, i)) <= num_val(s),
    decreases s.len() - i,
{
    if i == s.len() {
        assert(s.subrange(0, i) =~= s);
    } else {
        lemma_num_val_prefix(s, i + 1);
        assert(s.subrange(0, i + 1).drop_last() =~= s.subrange(0, i));
        assert(num_val(s.subrange(0, i + 1)) == num_val(s.subrange(0, i)) * 10 + digit_val(
            s[i],
        ));
    }
}

/// Finds the first occurrence of `c` at or after `from`.
fn find_char_from(s: &str, c: char, from: usize) -> (r: Option<usize>)
    requires
        from <= s@.len(),
    ensures
        match r {
            Some(k) => find_char(s@, c, from as nat) == Some(k as nat) && from <= k < s@.len()
                && s@[k as int] == c,
            None => find_char(s@, c, from as nat) is None,
        },
{
    let len = s.unicode_len();
    let mut i = from;
    while i < len
        invariant
            from <= i <= len,
            len == s@.len(),
            find_char(s@, c, from as nat) == find_char(s@, c, i as nat),
        decreases len - i,
    {
        if s.get_char(i) == c {
            return Some(i);
        }
        i = i + 1;
    }
    None
}

/// Finds the end of the run of digits starting at `from`.
fn digits_end_from(s: &str, from: usize) -> (r: usize)
    requires
        from <= s@.len(),
    ensures
        r == digits_end(s@, from as nat),
        from <= r <= s@.len(),
{
    let len = s.unicode_len();
    let mut i = from;
    while i < len
        invariant
            from <= i <= len,
            len == s@.len(),
            digits_end(s@, from as nat) == digits_end(s@, i as nat),
        decreases len - i,
    {
        let cv = s.get_char(i) as u32;
        if cv < 48 || cv > 57 {
            return i;
        }
        i = i + 1;
    }
    i
}

/// Checks one dot-separated identifier.
fn check_segment(g: &str, pre: bool) -> (r: bool)
    ensures
        r == segment_ok(g@, pre),
{
    let len = g.unicode_len();
    if len == 0 {
        return false;
    }
    let mut all_digits = true;
    let mut i: usize = 0;
    while i < len
        invariant
            i <= len,
            len == g@.len(),
            forall|k: int| 0 <= k < i ==> is_ident_char(#[trigger] g@[k]),
            all_digits == (forall|k: int| 0 <= k < i ==> is_digit(#[trigger] g@[k])),
        decreases len - i,
    {
        let c = g.get_char(i);
        let cv = c as u32;
        let digit = 48 <= cv && cv <= 57;
        let ident = digit || (65 <= cv && cv <= 90) || (97 <= cv && cv <= 122) || c == '-';
        if !ident {
            assert(!is_ident_char(g@[i as int]));
            return false;
        }
        if !digit {
            assert(!is_digit(g@[i as int]));
        }
        all_digits = all_digits && digit;
        i = i + 1;
    }
    if pre && all_digits && len > 1 {
        if g.get_char(0) == '0' {
            return false;
        }
    }
    true
}

/// Checks a non-empty sequence of dot-separated identifiers.
fn check_dotted(u: &str, pre: bool) -> (r: bool)
    ensures
        r == valid_dotted(u@, pre),
    decreases u@.len(),
{
    let len = u.unicode_len();
    match find_char_from(u, '.', 0) {
        None => check_segment(u, pre),
        Some(i) => {
            let head = u.substring_char(0, i);
            if !check_segment(head, pre) {
                return false;
            }
            let tail = u.substring_char(i + 1, len);
            check_dotted(tail, pre)
        },
    }
}

/// Checks a version suffix.
fn check_suffix(t: &str) -> (r: bool)
    ensures
        r == valid_suffix(t@),
{
    let len = t.unicode_len();
    if len == 0 {
        return true;
    }
    let first = t.get_char(0);
    if first == '-' {
        match find_char_from(t, '+', 0) {
            None => check_dotted(t.substring_char(1, len), true),
            Some(p) => {
                let head = t.substring_char(1, p);
                if !check_dotted(head, true) {
                    return false;
                }
                check_dotted(t.substring_char(p + 1, len), false)
            },
        }
    } else if first == '+' {
        check_dotted(t.substring_char(1, len), false)
    } else {
        false
    }
}

/// Parses a canonical decimal numeral; rejects anything else, and any value
/// over 64 bits.
fn parse_numeral(s: &str) -> (r: Option<u64>)
    ensures
        match r {
            Some(n) => is_numeral(s@) && num_val(s@) == n as nat,
            None => !(is_numeral(s@) && num_val(s@) <= u64::MAX),
        },
{
    let len = s.unicode_len();
    if len == 0 {
        return None;
    }
    if len > 1 && s.get_char(0) == '0' {
        return None;
    }
    let mut acc: u64 = 0;
    let mut i: usize = 0;
    while i < len
        invariant
            i <= len,
            len == s@.len(),
            s@.len() > 0,
            s@.len() > 1 ==> s@[0] != '0',
            forall|k: int| 0 <= k < i ==> is_digit(s@[k]),
            acc as nat == num_val(s@.subrange(0, i as int)),
        decreases len - i,
    {
        let c = s.get_char(i);
        let cv = c as u32;
        if cv < 48 || cv > 57 {
            assert(!is_digit(s@[i as int]));
            return None;
        }
        let d = (cv - 48) as u64;
        if acc > (u64::MAX - d) / 10 {
            proof {
                lemma_num_val_prefix(s@, i + 1);
                assert(s@.subrange(0, i + 1).drop_last() =~= s@.subrange(0, i as int));
                assert(num_val(s@.subrange(0, i + 1)) == acc as nat * 10 + d as nat);
            }
            return None;
        }
        proof {
            assert(s@.subrange(0, i + 1).drop_last() =~= s@.subrange(0, i as int));
        }
        acc = acc * 10 + d;
        i = i + 1;
    }
    proof {
        assert(s@.subrange(0, len as int) =~= s@);
    }
    Some(acc)
}

/// Parses a version string: `major.minor.patch` with canonical numerals,
/// then an optional pre-release or build-metadata suffix.
pub fn parse_version(s: &str) -> (r: Option<Version>)
    ensures
        match r {
            Some(ver) => parse_version_spec(s@) == Some(ver@),
            None => parse_version_spec(s@) is None,
        },
{
    let len = s.unicode_len();
    let i = match find_char_from(s, '.', 0) {
        Some(i) => i,
        None => {
            return None;
        },
    };
    let j = match find_char_from(s, '.', i + 1) {
        Some(j) => j,
        None => {
            return None;
        },
    };
    let k = digits_end_from(s, j + 1);
    let a = s.substring_char(0, i);
    let b = s.substring_char(i + 1, j);
    let c = s.substring_char(j + 1, k);
    let suf = s.substring_char(k, len);
    let ma = match parse_numeral(a) {
        Some(n) => n,
        None => {
            return None;
        },
    };
    let mb = match parse_numeral(b) {
        Some(n) => n,
        None => {
            return None;
        },
    };
    let mc = match parse_numeral(c) {
        Some(n) => n,
        None => {
            return None;
        },
    };
    if !check_suffix(suf) {
        return None;
    }
    let ver = Version { major: ma, minor: mb, patch: mc, suffix: String::from_str(suf) };
    proof {
        assert(parse_version_spec(s@) == Some(ver@));
    }
    Some(ver)
}

/// Renders a number as its canonical decimal numeral.
fn u64_to_string(n: u64) -> (r: String)
    ensures
        r@ == dec_rep(n as nat),
    decreases n,
{
    if n < 10 {
        String::from_str(digit_str(n))
    } else {
        let prefix = u64_to_string(n / 10);
        let r = prefix.concat(digit_str(n % 10));
        proof {
            assert(dec_rep((n / 10) as nat).push(digit_char((n % 10) as nat)) =~= dec_rep(
                (n / 10) as nat,
            ) + seq![digit_char((n % 10) as nat)]);
        }
        r
    }
}

/// The one-character string for a digit value.
fn digit_str(d: u64) -> (r: &'static str)
    requires
        d < 10,
    ensures
        r@ =~= seq![digit_char(d as nat)],
{
    proof {
        reveal_strlit("0");
        reveal_strlit("1");
        reveal_strlit("2");
        reveal_strlit("3");
        reveal_strlit("4");
        reveal_strlit("5");
        reveal_strlit("6");
        reveal_strlit("7");
        reveal_strlit("8");
        reveal_strlit("9");
    }
    if d == 0 {
        "0"
    } else if d == 1 {
        "1"
    } else if d == 2 {
        "2"
    } else if d == 3 {
        "3"
    } else if d == 4 {
        "4"
    } else if d == 5 {
        "5"
    } else if d == 6 {
        "6"
    } else if d == 7 {
        "7"
    } else if d == 8 {
        "8"
    } else {
        "9"
    }
}

impl Version {
    /// Renders the version as `major.minor.patch` followed by the suffix
    /// verbatim.
    pub fn to_text(&self) -> (r: String)
        ensures
            r@ == version_rep(self@),
    {
        proof {
            reveal_strlit(".");
        }
        let mut s = u64_to_string(self.major);
        s.append(".");
        let minor = u64_to_string(self.minor);
        s.append(minor.as_str());
        s.append(".");
        let patch = u64_to_string(self.patch);
        s.append(patch.as_str());
        s.append(self.suffix.as_str());
        proof {
            assert(s@ =~= version_rep(self@));
        }
        s
    }
}

/// The version grammar round-trips: rendering any version with a valid
/// suffix and parsing the text back yields the version itself.
pub proof fn lemma_version_text_round_trip(v: VersionV)
    requires
        valid_suffix(v.suffix),
    ensures
        parse_version_spec(version_rep(v)) == Some(v),
{
    let a = dec_rep(v.major as nat);
    let b = dec_rep(v.minor as nat);
    let c = dec_rep(v.patch as nat);
    let suf = v.suffix;
    let s = version_rep(v);
    lemma_dec_rep_digits(v.major as nat);
    lemma_dec_rep_digits(v.minor as nat);
    lemma_dec_rep_digits(v.patch as nat);
    let al = a.len() as int;
    let bl = b.len() as int;
    let cl = c.len() as int;
    let sl = suf.len() as int;
    assert(s.len() == al + 1 + bl + 1 + cl + sl);
    assert(s[al] == '.');
    assert(s[al + 1 + bl] == '.');
    assert forall|j: int| 0 <= j < al + 1 + bl && j != al implies s[j] != '.' by {
        if j < al {
            assert(s[j] == a[j]);
            assert(is_digit(a[j]));
        } else {
            assert(s[j] == b[j - (al + 1)]);
            assert(is_digit(b[j - (al + 1)]));
        }
        assert('.' as u32 == 46);
    }
    lemma_find_char_at(s, '.', 0, al);
    lemma_find_char_at(s, '.', al + 1, al + 1 + bl);
    let pstart = al + 1 + bl + 1;
    assert forall|j: int| pstart <= j < pstart + cl implies is_digit(s[j]) by {
        assert(s[j] == c[j - pstart]);
    }
    if sl > 0 {
        assert(s[pstart + cl] == suf[0]);
        assert(suf[0] == '-' || suf[0] == '+');
        assert(!is_digit(s[pstart + cl]));
    }
    lemma_digits_end_at(s, pstart, pstart + cl);
    assert(s.subrange(0, al) =~= a);
    assert(s.subrange(al + 1, al + 1 + bl) =~= b);
    assert(s.subrange(pstart, pstart + cl) =~= c);
    assert(s.subrange(pstart + cl, s.len() as int) =~= suf);
    assert(is_numeral(a));
    assert(is_numeral(b));
    assert(is_numeral(c));
    assert(num_val(a) == v.major as nat);
    assert(num_val(b) == v.minor as nat);
    assert(num_val(c) == v.patch as nat);
    assert(parse_version_spec(s) == Some(v));
}

/// Distinct versions render to distinct texts, so the version-addressed
/// artifact directories of distinct versions never collide.
pub proof fn lemma_version_rep_injective(v1: VersionV, v2: VersionV)
    requires
        valid_suffix(v1.suffix),
        valid_suffix(v2.suffix),
        version_rep(v1) == version_rep(v2),
    ensures
        v1 == v2,
{
    lemma_version_text_round_trip(v1);
    lemma_version_text_round_trip(v2);
}

/// Determines the deployment version for a program: an explicit override is
/// returned verbatim; otherwise the version declared by the program's
/// manifest is parsed, and its absence or malformation is a manifest error.
pub struct VersionResolver;

impl VersionResolver {
    /// Resolves the version to deploy. An explicit version wins regardless
    /// of the manifest; without one, the manifest's declared version text
    /// must be present and parse.
    pub fn resolve(explicit: Option<Version>, manifest_version: Option<&str>) -> (r: Result<
        Version,
        FleetError,
    >)
        ensures
            explicit matches Some(v) ==> r == Ok::<Version, FleetError>(v),
            explicit is None ==> match manifest_version {
                Some(m) => match r {
                    Ok(w) => parse_version_spec(m@) == Some(w@),
                    Err(e) => parse_version_spec(m@) is None && e == FleetError::ManifestRead,
                },
                None => r == Err::<Version, FleetError>(FleetError::ManifestRead),
            },
    {
        match explicit {
            Some(v) => Ok(v),
            None => match manifest_version {
                Some(m) => match parse_version(m) {
                    Some(v) => Ok(v),
                    None => Err(FleetError::ManifestRead),
                },
                None => Err(FleetError::ManifestRead),
            },
        }
    }
}

} // verus!
