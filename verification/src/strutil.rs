use vstd::prelude::*;
use vstd::string::StrSliceExecFns;
use vstd::string::StringExecFns;

verus! {

/// The whitespace characters this library strips from the edges of line input.
/// Trimming is a deliberate, explicit step of resolution, so the exact set is
/// pinned down here rather than inherited from a platform routine.
pub open spec fn is_ws_char(c: char) -> bool {
    c == ' ' || c == '\t' || c == '\n' || c == '\r'
}

/// The trimmed form of a string: leading and trailing whitespace removed.
pub open spec fn spec_trim(s: Seq<char>) -> Seq<char>
    decreases s.len(),
{
    if s.len() == 0 {
        s
    } else if is_ws_char(s.first()) {
        spec_trim(s.drop_first())
    } else if is_ws_char(s.last()) {
        spec_trim(s.drop_last())
    } else {
        s
    }
}

/// A trimmed string is empty or begins and ends with non-whitespace.
pub proof fn lemma_trim_edges(s: Seq<char>)
    ensures
        spec_trim(s).len() == 0 || (!is_ws_char(spec_trim(s).first()) && !is_ws_char(
            spec_trim(s).last(),
        )),
    decreases s.len(),
{
    if s.len() == 0 {
    } else if is_ws_char(s.first()) {
        lemma_trim_edges(s.drop_first());
    } else if is_ws_char(s.last()) {
        lemma_trim_edges(s.drop_last());
    }
}

/// A string whose edges hold no whitespace is its own trimmed form.
pub proof fn lemma_trim_identity(s: Seq<char>)
    requires
        s.len() == 0 || (!is_ws_char(s.first()) && !is_ws_char(s.last())),
    ensures
        spec_trim(s) == s,
{
}

/// Trimming is idempotent.
pub proof fn lemma_trim_idempotent(s: Seq<char>)
    ensures
        spec_trim(spec_trim(s)) == spec_trim(s),
{
    lemma_trim_edges(s);
    lemma_trim_identity(spec_trim(s));
}

/// The trimmed form of a subrange whose outside is all whitespace and whose
/// inside edges are not: exactly that subrange.
proof fn lemma_trim_subrange(s: Seq<char>, i: int, j: int)
    requires
        0 <= i <= j <= s.len(),
        forall|k: int| 0 <= k < i ==> is_ws_char(s[k]),
        forall|k: int| j <= k < s.len() ==> is_ws_char(s[k]),
        i < j ==> !is_ws_char(s[i]) && !is_ws_char(s[j - 1]),
    ensures
        spec_trim(s) == s.subrange(i, j),
    decreases s.len(),
{
    if s.len() == 0 {
        assert(s.subrange(i, j) =~= s);
    } else if is_ws_char(s.first()) {
        let s1 = s.drop_first();
        if i > 0 {
            lemma_trim_subrange(s1, i - 1, j - 1);
            assert(s1.subrange(i - 1, j - 1) =~= s.subrange(i, j));
        } else {
            // the first character is whitespace, so nothing starts at 0
            assert(i == j);
            lemma_trim_subrange(s1, 0, 0);
            assert(s1.subrange(0, 0) =~= s.subrange(i, j));
        }
    } else if is_ws_char(s.last()) {
        let s1 = s.drop_last();
        if j < s.len() {
            lemma_trim_subrange(s1, i, j);
            assert(s1.subrange(i, j) =~= s.subrange(i, j));
        } else {
            // the last character is whitespace yet lies inside [i, j): impossible
            assert(is_ws_char(s[j - 1]));
            assert(i == j);
            assert(is_ws_char(s[0]));
            assert(false);
        }
    } else {
        assert(i == 0) by {
            if i > 0 {
                assert(is_ws_char(s[0]));
            }
        }
        assert(j == s.len()) by {
            if j < s.len() {
                assert(is_ws_char(s[s.len() - 1]));
            }
        }
        assert(s.subrange(i, j) =~= s);
    }
}

/// Whether a character counts as whitespace for trimming.
pub fn is_ws(c: char) -> (r: bool)
    ensures
        r == is_ws_char(c),
{
    c == ' ' || c == '\t' || c == '\n' || c == '\r'
}

/// Strip leading and trailing whitespace from a line of input.
pub fn trim_line(s: &str) -> (r: String)
    ensures
        r@ == spec_trim(s@),
{
    let n = s.unicode_len();
    let mut i: usize = 0;
    while i < n && is_ws(s.get_char(i))
        invariant
            i <= n,
            n == s@.len(),
            forall|k: int| 0 <= k < i ==> is_ws_char(s@[k]),
        decreases n - i,
    {
        i = i + 1;
    }
    let mut j: usize = n;
    while j > i && is_ws(s.get_char(j - 1))
        invariant
            i <= j <= n,
            n == s@.len(),
            forall|k: int| 0 <= k < i ==> is_ws_char(s@[k]),
            forall|k: int| j <= k < n ==> is_ws_char(s@[k]),
            i == n || !is_ws_char(s@[i as int]),
        decreases j,
    {
        j = j - 1;
    }
    proof {
        lemma_trim_subrange(s@, i as int, j as int);
    }
    let t = s.substring_char(i, j);
    t.to_owned()
}

/// The character that prints a single decimal digit.
pub open spec fn digit_char(d: nat) -> char {
    if d == 0 {
        '0'
    } else if d == 1 {
        '1'
    } else if d == 2 {
        '2'
    } else if d == 3 {
        '3'
    } else if d == 4 {
        '4'
    } else if d == 5 {
        '5'
    } else if d == 6 {
        '6'
    } else if d == 7 {
        '7'
    } else if d == 8 {
        '8'
    } else {
        '9'
    }
}

/// The decimal digits of a natural number, most significant first.
pub open spec fn dec_digits(n: nat) -> Seq<char>
    decreases n,
{
    if n < 10 {
        seq![digit_char(n)]
    } else {
        dec_digits(n / 10).push(digit_char(n % 10))
    }
}

/// The decimal rendering of an integer, with a leading minus sign when negative.
pub open spec fn dec_int(n: int) -> Seq<char> {
    if n < 0 {
        seq!['-'] + dec_digits((-n) as nat)
    } else {
        dec_digits(n as nat)
    }
}

/// The printed form of one decimal digit.
fn digit_str(d: u64) -> (r: &'static str)
    requires
        d < 10,
    ensures
        r@ =~= seq![digit_char(d as nat)],
{
    if d == 0 {
        proof {
            reveal_strlit("0");
        }
        "0"
    } else if d == 1 {
        proof {
            reveal_strlit("1");
        }
        "1"
    } else if d == 2 {
        proof {
            reveal_strlit("2");
        }
        "2"
    } else if d == 3 {
        proof {
            reveal_strlit("3");
        }
        "3"
    } else if d == 4 {
        proof {
            reveal_strlit("4");
        }
        "4"
    } else if d == 5 {
        proof {
            reveal_strlit("5");
        }
        "5"
    } else if d == 6 {
        proof {
            reveal_strlit("6");
        }
        "6"
    } else if d == 7 {
        proof {
            reveal_strlit("7");
        }
        "7"
    } else if d == 8 {
        proof {
            reveal_strlit("8");
        }
        "8"
    } else {
        proof {
            reveal_strlit("9");
        }
        "9"
    }
}

/// The characters printed for a stack of digit values collected least
/// significant first: the last collected digit prints first.
spec fn chars_lsb(ds: Seq<u64>) -> Seq<char>
    decreases ds.len(),
{
    if ds.len() == 0 {
        Seq::empty()
    } else {
        seq![digit_char(ds.last() as nat)] + chars_lsb(ds.drop_last())
    }
}

/// Print a natural number in decimal.
pub fn u64_to_dec(n: u64) -> (r: String)
    ensures
        r@ == dec_digits(n as nat),
{
    if n == 0 {
        let r = "0".to_owned();
        proof {
            reveal_strlit("0");
            assert(r@ =~= dec_digits(0));
        }
        return r;
    }
    let mut digits: Vec<u64> = Vec::new();
    let mut cur: u64 = n;
    while cur > 0
        invariant
            cur > 0 ==> dec_digits(n as nat) =~= dec_digits(cur as nat) + chars_lsb(digits@),
            cur == 0 ==> dec_digits(n as nat) =~= chars_lsb(digits@),
            forall|k: int| 0 <= k < digits@.len() ==> digits@[k] < 10,
        decreases cur,
    {
        let d = cur % 10;
        let ghost old_digits = digits@;
        let ghost old_cur = cur as nat;
        digits.push(d);
        cur = cur / 10;
        proof {
            assert(digits@.drop_last() =~= old_digits);
            assert(chars_lsb(digits@) =~= seq![digit_char(d as nat)] + chars_lsb(old_digits));
            if old_cur >= 10 {
                assert(dec_digits(old_cur) =~= dec_digits(old_cur / 10).push(
                    digit_char(old_cur % 10),
                ));
                assert(dec_digits(old_cur) + chars_lsb(old_digits) =~= dec_digits(cur as nat)
                    + chars_lsb(digits@));
            } else {
                assert(cur == 0);
                assert(dec_digits(old_cur) =~= seq![digit_char(old_cur)]);
                assert(dec_digits(old_cur) + chars_lsb(old_digits) =~= chars_lsb(digits@));
            }
        }
    }
    let mut out = String::new();
    let mut k = digits.len();
    proof {
        assert(digits@.subrange(0, k as int) =~= digits@);
    }
    while k > 0
        invariant
            k <= digits@.len(),
            forall|m: int| 0 <= m < digits@.len() ==> digits@[m] < 10,
            out@ + chars_lsb(digits@.subrange(0, k as int)) =~= chars_lsb(digits@),
            dec_digits(n as nat) =~= chars_lsb(digits@),
        decreases k,
    {
        let ghost old_out = out@;
        let ghost old_k = k as int;
        let d = digits[k - 1];
        out.append(digit_str(d));
        k = k - 1;
        proof {
            let pre = digits@.subrange(0, old_k);
            assert(pre.drop_last() =~= digits@.subrange(0, old_k - 1));
            assert(chars_lsb(pre) =~= seq![digit_char(d as nat)] + chars_lsb(
                digits@.subrange(0, old_k - 1),
            ));
            assert(out@ + chars_lsb(digits@.subrange(0, k as int)) =~= old_out + chars_lsb(pre));
        }
    }
    proof {
        assert(digits@.subrange(0, 0) =~= Seq::<u64>::empty());
        assert(out@ =~= dec_digits(n as nat));
    }
    out
}

/// Print a signed integer in decimal.
pub fn i64_to_string(n: i64) -> (r: String)
    ensures
        r@ == dec_int(n as int),
{
    if n >= 0 {
        u64_to_dec(n as u64)
    } else {
        let mut out = "-".to_owned();
        let wide: i128 = n as i128;
        let mag: u64 = (-wide) as u64;
        let rest = u64_to_dec(mag);
        out.append(rest.as_str());
        proof {
            reveal_strlit("-");
            assert(out@ =~= dec_int(n as int));
        }
        out
    }
}

/// The view of an optional string.
pub open spec fn opt_str_view(o: Option<String>) -> Option<Seq<char>> {
    match o {
        Some(s) => Some(s@),
        None => None,
    }
}

/// Whether two strings hold the same characters.
pub fn str_eq_value(a: &str, b: &str) -> (r: bool)
    ensures
        r == (a@ == b@),
{
    let sa = a.to_owned();
    let sb = b.to_owned();
    sa == sb
}

} // verus!
