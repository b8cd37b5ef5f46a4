//! Naming policy: zero-padded index prefixes and filesystem-safe filenames.
//!
//! Every filename of a batch begins with its one-based index, zero-padded to
//! the decimal digit count of the item count. Two filenames of one batch can
//! therefore never collide, whatever the items' own titles say, and no
//! filename holds a path separator.

use vstd::prelude::*;
use vstd::arithmetic::div_mod::lemma_fundamental_div_mod;
use vstd::string::StrSliceExecFns;
use vstd::string::StringExecFns;

verus! {

/// Number of decimal digits of `n`, with a minimum of one.
pub open spec fn width_spec(n: nat) -> nat
    decreases n,
{
    if n < 10 {
        1
    } else {
        1 + width_spec(n / 10)
    }
}

/// A digit count is at least one.
pub proof fn lemma_width_pos(n: nat)
    ensures
        width_spec(n) >= 1,
    decreases n,
{
    if n >= 10 {
        lemma_width_pos(n / 10);
    }
}

/// The digit count of a positive number never exceeds the number itself.
pub proof fn lemma_width_le(n: nat)
    requires
        n >= 1,
    ensures
        width_spec(n) <= n,
    decreases n,
{
    if n >= 10 {
        lemma_width_le(n / 10);
    }
}

/// The digit count grows with the number.
pub proof fn lemma_width_mono(a: nat, b: nat)
    requires
        a <= b,
    ensures
        width_spec(a) <= width_spec(b),
    decreases b,
{
    if a < 10 {
        lemma_width_pos(b);
    } else {
        lemma_width_mono(a / 10, b / 10);
    }
}

/// Zero-padding width for a batch of `count` items: the decimal digit count
/// of `count` itself.
pub fn digit_width(count: usize) -> (w: usize)
    ensures
        w == width_spec(count as nat),
{
    let mut n: usize = count;
    let mut w: usize = 1;
    while n >= 10
        invariant
            w >= 1,
            n <= count,
            w - 1 + width_spec(n as nat) == width_spec(count as nat),
        decreases n,
    {
        proof {
            lemma_width_pos((n / 10) as nat);
            lemma_width_le(count as nat);
        }
        n = n / 10;
        w = w + 1;
    }
    w
}

/// The decimal digit standing for `d`.
pub open spec fn digit_char(d: nat) -> char {
    if d == 0 {
        '0'
    } else if d == 1 {
        '1'
    } else if d == 2 {
        '2'
    } else if d == 3 {
        '3'
    } else if d == 4 {
        '4'
    } else if d == 5 {
        '5'
    } else if d == 6 {
        '6'
    } else if d == 7 {
        '7'
    } else if d == 8 {
        '8'
    } else {
        '9'
    }
}

/// The value a decimal digit stands for.
pub open spec fn digit_val(c: char) -> nat {
    if c == '0' {
        0
    } else if c == '1' {
        1
    } else if c == '2' {
        2
    } else if c == '3' {
        3
    } else if c == '4' {
        4
    } else if c == '5' {
        5
    } else if c == '6' {
        6
    } else if c == '7' {
        7
    } else if c == '8' {
        8
    } else {
        9
    }
}

/// The decimal digits of `n`, most significant first.
pub open spec fn dec_spec(n: nat) -> Seq<char>
    decreases n,
{
    if n < 10 {
        seq![digit_char(n)]
    } else {
        dec_spec(n / 10).push(digit_char(n % 10))
    }
}

/// A run of `k` zero digits.
pub open spec fn zeros(k: nat) -> Seq<char>
    decreases k,
{
    if k == 0 {
        Seq::empty()
    } else {
        zeros((k - 1) as nat).push('0')
    }
}

/// `n` in decimal, left-padded with zeros to width `w`.
pub open spec fn padded_spec(n: nat, w: nat) -> Seq<char> {
    if width_spec(n) >= w {
        dec_spec(n)
    } else {
        zeros((w - width_spec(n)) as nat) + dec_spec(n)
    }
}

/// The number a digit string stands for.
pub open spec fn val_spec(s: Seq<char>) -> nat
    decreases s.len(),
{
    if s.len() == 0 {
        0
    } else {
        val_spec(s.drop_last()) * 10 + digit_val(s.last())
    }
}

/// The decimal digits of `n` are as many as its digit count.
pub proof fn lemma_dec_len(n: nat)
    ensures
        dec_spec(n).len() == width_spec(n),
    decreases n,
{
    if n >= 10 {
        lemma_dec_len(n / 10);
    }
}

/// A run of zeros has its stated length.
pub proof fn lemma_zeros_len(k: nat)
    ensures
        zeros(k).len() == k,
    decreases k,
{
    if k > 0 {
        lemma_zeros_len((k - 1) as nat);
    }
}

/// A padded number fills exactly the asked width.
pub proof fn lemma_padded_len(n: nat, w: nat)
    requires
        width_spec(n) <= w,
    ensures
        padded_spec(n, w).len() == w,
{
    lemma_dec_len(n);
    if width_spec(n) < w {
        lemma_zeros_len((w - width_spec(n)) as nat);
    }
}

/// A digit read back gives its value.
pub proof fn lemma_digit_roundtrip(d: nat)
    requires
        d < 10,
    ensures
        digit_val(digit_char(d)) == d,
{
}

/// Reading the decimal digits of `n` back gives `n`.
pub proof fn lemma_val_dec(n: nat)
    ensures
        val_spec(dec_spec(n)) == n,
    decreases n,
{
    reveal_with_fuel(val_spec, 2);
    if n < 10 {
        lemma_digit_roundtrip(n);
        assert(seq![digit_char(n)].drop_last() =~= Seq::<char>::empty());
        assert(seq![digit_char(n)].last() == digit_char(n));
        assert(val_spec(seq![digit_char(n)]) == digit_val(digit_char(n)));
    } else {
        lemma_val_dec(n / 10);
        lemma_digit_roundtrip(n % 10);
        let d = digit_char(n % 10);
        assert(dec_spec(n / 10).push(d).drop_last() =~= dec_spec(n / 10));
        assert(dec_spec(n / 10).push(d).last() == d);
        assert(val_spec(dec_spec(n)) == val_spec(dec_spec(n / 10)) * 10 + digit_val(d));
        lemma_fundamental_div_mod(n as int, 10);
    }
}

/// A run of zeros stands for nothing.
pub proof fn lemma_val_zeros(k: nat)
    ensures
        val_spec(zeros(k)) == 0,
    decreases k,
{
    if k > 0 {
        assert(zeros((k - 1) as nat).push('0').drop_last() =~= zeros((k - 1) as nat));
        lemma_val_zeros((k - 1) as nat);
    }
}

/// Leading zeros do not change the value a digit string stands for.
pub proof fn lemma_val_zeros_prefix(k: nat, s: Seq<char>)
    ensures
        val_spec(zeros(k) + s) == val_spec(s),
    decreases s.len(),
{
    if s.len() == 0 {
        assert(zeros(k) + s =~= zeros(k));
        lemma_val_zeros(k);
    } else {
        assert((zeros(k) + s).drop_last() =~= zeros(k) + s.drop_last());
        assert((zeros(k) + s).last() == s.last());
        lemma_val_zeros_prefix(k, s.drop_last());
    }
}

/// Reading a padded number back gives the number: padding to a width is
/// injective over the numbers whose digits fit in it.
pub proof fn lemma_val_padded(n: nat, w: nat)
    ensures
        val_spec(padded_spec(n, w)) == n,
{
    lemma_val_dec(n);
    if width_spec(n) < w {
        lemma_val_zeros_prefix((w - width_spec(n)) as nat, dec_spec(n));
    }
}

/// One decimal digit as a string.
fn digit_str(d: u64) -> (r: &'static str)
    requires
        d < 10,
    ensures
        r@ == seq![digit_char(d as nat)],
{
    match d {
        0 => {
            proof {
                reveal_strlit("0");
            }
            "0"
        },
        1 => {
            proof {
                reveal_strlit("1");
            }
            "1"
        },
        2 => {
            proof {
                reveal_strlit("2");
            }
            "2"
        },
        3 => {
            proof {
                reveal_strlit("3");
            }
            "3"
        },
        4 => {
            proof {
                reveal_strlit("4");
            }
            "4"
        },
        5 => {
            proof {
                reveal_strlit("5");
            }
            "5"
        },
        6 => {
            proof {
                reveal_strlit("6");
            }
            "6"
        },
        7 => {
            proof {
                reveal_strlit("7");
            }
            "7"
        },
        8 => {
            proof {
                reveal_strlit("8");
            }
            "8"
        },
        9 => {
            proof {
                reveal_strlit("9");
            }
            "9"
        },
        _ => vstd::pervasive::unreached(),
    }
}

/// `n` in decimal.
pub fn dec_str(n: u64) -> (r: String)
    ensures
        r@ == dec_spec(n as nat),
    decreases n,
{
    if n < 10 {
        digit_str(n).to_owned()
    } else {
        let mut s = dec_str(n / 10);
        s.append(digit_str(n % 10));
        proof {
            assert(dec_spec((n / 10) as nat) + seq![digit_char((n % 10) as nat)] =~= dec_spec(
                (n / 10) as nat,
            ).push(digit_char((n % 10) as nat)));
        }
        s
    }
}

/// `n` in decimal, left-padded with zero digits to `width`.
pub fn zero_pad(n: u64, width: usize) -> (r: String)
    ensures
        r@ == padded_spec(n as nat, width as nat),
{
    let digits = dec_str(n);
    proof {
        lemma_dec_len(n as nat);
    }
    let d = digits.as_str().unicode_len();
    let mut s = String::new();
    let mut k: usize = d;
    while k < width
        invariant
            d <= k,
            d == width_spec(n as nat),
            k <= width || k == d,
            s@ == zeros((k - d) as nat),
        decreases width - k,
    {
        s.append("0");
        proof {
            reveal_strlit("0");
            assert(zeros((k - d) as nat) + "0"@ =~= zeros((k + 1 - d) as nat));
        }
        k = k + 1;
    }
    s.append(digits.as_str());
    proof {
        if d >= width {
            assert(zeros(0) + digits@ =~= digits@);
            assert(s@ =~= padded_spec(n as nat, width as nat));
        }
    }
    s
}

/// Relies on `String::push`: appends exactly one character.
#[verifier::external_body]
fn push_char(s: &mut String, c: char)
    ensures
        final(s)@ == old(s)@.push(c),
{
    s.push(c);
}

/// The character mapping that keeps a name free of path separators.
pub open spec fn sanitize_char(c: char) -> char {
    if c == '/' {
        '-'
    } else {
        c
    }
}

/// The text with every path separator replaced by a dash.
pub open spec fn sanitize_spec(s: Seq<char>) -> Seq<char> {
    s.map_values(|c: char| sanitize_char(c))
}

/// Replaces every path separator in the text with a dash.
pub fn sanitize(s: &str) -> (r: String)
    ensures
        r@ == sanitize_spec(s@),
{
    let n = s.unicode_len();
    let mut r = String::new();
    let mut i: usize = 0;
    while i < n
        invariant
            i <= n,
            n == s@.len(),
            r@ == sanitize_spec(s@.take(i as int)),
        decreases n - i,
    {
        let c = s.get_char(i);
        if c == '/' {
            push_char(&mut r, '-');
        } else {
            push_char(&mut r, c);
        }
        proof {
            assert(sanitize_spec(s@.take(i + 1)) =~= sanitize_spec(s@.take(i as int)).push(
                sanitize_char(s@[i as int]),
            ));
        }
        i = i + 1;
    }
    proof {
        assert(s@.take(n as int) =~= s@);
    }
    r
}

/// The position of the first type separator in a content type, from `i` on.
pub open spec fn find_sep(s: Seq<char>, i: nat) -> Option<nat>
    decreases s.len() - i when i <= s.len()
{
    if i >= s.len() {
        None
    } else if s[i as int] == '/' {
        Some(i)
    } else {
        find_sep(s, i + 1)
    }
}

/// The filename extension derived from a content type: the subtype after
/// the first separator, with `jpeg` shortened to `jpg`; `unknown` when the
/// content type has no separator at all.
pub open spec fn ext_spec(s: Seq<char>) -> Seq<char> {
    match find_sep(s, 0) {
        None => "unknown"@,
        Some(k) => {
            let sub = s.skip(k + 1 as int);
            if sub == "jpeg"@ {
                "jpg"@
            } else {
                sub
            }
        },
    }
}

/// Derives the filename extension from a content type such as `image/jpeg`.
pub fn get_media_type(content_type: &str) -> (r: String)
    ensures
        r@ == ext_spec(content_type@),
{
    let n = content_type.unicode_len();
    let mut i: usize = 0;
    while i < n
        invariant
            i <= n,
            n == content_type@.len(),
            find_sep(content_type@, 0) == find_sep(content_type@, i as nat),
        decreases n - i,
    {
        let c = content_type.get_char(i);
        if c == '/' {
            proof {
                assert(find_sep(content_type@, i as nat) == Some(i as nat));
            }
            let sub = content_type.substring_char(i + 1, n);
            let sub_string = sub.to_owned();
            proof {
                assert(content_type@.skip(i + 1) =~= content_type@.subrange(i + 1, n as int));
            }
            let jpeg = "jpeg".to_owned();
            if sub_string == jpeg {
                return "jpg".to_owned();
            } else {
                return sub_string;
            }
        }
        i = i + 1;
    }
    proof {
        assert(find_sep(content_type@, n as nat) is None);
    }
    "unknown".to_owned()
}

/// The fixed album page prefix that may be pasted in place of a bare id.
pub open spec fn album_prefix() -> Seq<char> {
    "https://imgur.com/a/"@
}

/// The album id with the album page prefix stripped, when it is present.
pub open spec fn album_id_spec(s: Seq<char>) -> Seq<char> {
    if album_prefix().is_prefix_of(s) {
        s.skip(album_prefix().len() as int)
    } else {
        s
    }
}

/// Accepts a bare album id or a full album page URL and gives back the id.
pub fn get_album_id(album_id: &str) -> (r: String)
    ensures
        r@ == album_id_spec(album_id@),
{
    let p = "https://imgur.com/a/";
    proof {
        reveal_strlit("https://imgur.com/a/");
    }
    let plen = p.unicode_len();
    let n = album_id.unicode_len();
    if n < plen {
        return album_id.to_owned();
    }
    let mut i: usize = 0;
    while i < plen
        invariant
            i <= plen,
            p@ == album_prefix(),
            plen == album_prefix().len(),
            n == album_id@.len(),
            plen <= n,
            forall|j: int| 0 <= j < i ==> album_id@[j] == album_prefix()[j],
        decreases plen - i,
    {
        if album_id.get_char(i) != p.get_char(i) {
            proof {
                let sub = album_id@.subrange(0, plen as int);
                assert(sub[i as int] == album_id@[i as int]);
                if album_prefix().is_prefix_of(album_id@) {
                    assert(album_prefix() =~= sub);
                    assert(false);
                }
            }
            return album_id.to_owned();
        }
        i = i + 1;
    }
    proof {
        assert(album_id@.subrange(0, plen as int) =~= album_prefix());
    }
    let rest = content_after_prefix(album_id, plen, n);
    rest
}

/// The tail of the id string past the checked prefix.
fn content_after_prefix(album_id: &str, plen: usize, n: usize) -> (r: String)
    requires
        plen <= n,
        n == album_id@.len(),
    ensures
        r@ == album_id@.skip(plen as int),
{
    let rest = album_id.substring_char(plen, n);
    proof {
        assert(album_id@.subrange(plen as int, n as int) =~= album_id@.skip(plen as int));
    }
    rest.to_owned()
}

/// A component tagged onto the name: a separator and the sanitized text.
pub open spec fn opt_tag(o: Option<Seq<char>>) -> Seq<char> {
    match o {
        None => Seq::empty(),
        Some(t) => " - "@ + sanitize_spec(t),
    }
}

/// Everything after the index prefix of a filename.
pub open spec fn filename_rest_spec(
    id: Seq<char>,
    title: Option<Seq<char>>,
    desc: Option<Seq<char>>,
    ctype: Seq<char>,
) -> Seq<char> {
    " - "@ + sanitize_spec(id) + opt_tag(title) + opt_tag(desc) + "."@ + sanitize_spec(
        ext_spec(ctype),
    )
}

/// The destination filename of one item: its one-based index, zero-padded
/// to the digit count of the item count, then the item's identifier, its
/// optional title and description, and the extension derived from its
/// content type — every free-text part with path separators replaced.
pub open spec fn filename_spec(
    index: nat,
    count: nat,
    id: Seq<char>,
    title: Option<Seq<char>>,
    desc: Option<Seq<char>>,
    ctype: Seq<char>,
) -> Seq<char> {
    padded_spec(index + 1, width_spec(count)) + filename_rest_spec(id, title, desc, ctype)
}

/// The view of an optional borrowed text.
pub open spec fn opt_view(o: Option<&String>) -> Option<Seq<char>> {
    match o {
        None => None,
        Some(t) => Some(t@),
    }
}

/// Builds the destination filename of the item at `index` in a batch of
/// `count` items.
pub fn make_filename(
    index: usize,
    count: usize,
    id: &str,
    title: Option<&String>,
    description: Option<&String>,
    content_type: &str,
) -> (r: String)
    requires
        index < count,
    ensures
        r@ == filename_spec(
            index as nat,
            count as nat,
            id@,
            opt_view(title),
            opt_view(description),
            content_type@,
        ),
{
    let w = digit_width(count);
    let mut s = zero_pad((index as u64) + 1, w);
    s.append(" - ");
    let sid = sanitize(id);
    s.append(sid.as_str());
    match title {
        Some(t) => {
            s.append(" - ");
            let st = sanitize(t.as_str());
            s.append(st.as_str());
        },
        None => {},
    }
    match description {
        Some(t) => {
            s.append(" - ");
            let st = sanitize(t.as_str());
            s.append(st.as_str());
        },
        None => {},
    }
    s.append(".");
    let ext = get_media_type(content_type);
    let se = sanitize(ext.as_str());
    s.append(se.as_str());
    proof {
        assert(s@ =~= filename_spec(
            index as nat,
            count as nat,
            id@,
            opt_view(title),
            opt_view(description),
            content_type@,
        ));
    }
    s
}

/// The reserved-prefix name of the temporary file behind a final filename.
pub open spec fn temp_name_spec(name: Seq<char>) -> Seq<char> {
    "~!"@ + name
}

/// The temporary path of an in-flight fetch: the final filename behind the
/// reserved prefix. A fetch owns its temporary file alone, because distinct
/// final names give distinct temporary names.
pub fn temp_name(name: &str) -> (r: String)
    ensures
        r@ == temp_name_spec(name@),
{
    let mut s = "~!".to_owned();
    s.append(name);
    s
}

/// Distinct final names give distinct temporary names: fetches of different
/// items never collide on their temporary files.
pub proof fn lemma_temp_names_distinct(a: Seq<char>, b: Seq<char>)
    requires
        a != b,
    ensures
        temp_name_spec(a) != temp_name_spec(b),
{
    reveal_strlit("~!");
    assert(temp_name_spec(a).skip(2) =~= a);
    assert(temp_name_spec(b).skip(2) =~= b);
}

/// Two distinct items of one batch never share a filename: their
/// zero-padded one-based index prefixes have the same width — the digit
/// count of the item count — yet stand for different numbers, so the names
/// differ within the prefix, whatever the items' own texts say.
pub proof fn lemma_filenames_distinct(
    i: nat,
    j: nat,
    count: nat,
    id1: Seq<char>,
    t1: Option<Seq<char>>,
    d1: Option<Seq<char>>,
    c1: Seq<char>,
    id2: Seq<char>,
    t2: Option<Seq<char>>,
    d2: Option<Seq<char>>,
    c2: Seq<char>,
)
    requires
        i < count,
        j < count,
        i != j,
    ensures
        filename_spec(i, count, id1, t1, d1, c1) != filename_spec(j, count, id2, t2, d2, c2),
{
    let w = width_spec(count);
    lemma_width_mono(i + 1, count);
    lemma_width_mono(j + 1, count);
    let p1 = padded_spec(i + 1, w);
    let p2 = padded_spec(j + 1, w);
    lemma_padded_len(i + 1, w);
    lemma_padded_len(j + 1, w);
    lemma_val_padded(i + 1, w);
    lemma_val_padded(j + 1, w);
    let f1 = filename_spec(i, count, id1, t1, d1, c1);
    let f2 = filename_spec(j, count, id2, t2, d2, c2);
    if f1 == f2 {
        assert(f1.subrange(0, w as int) =~= p1);
        assert(f2.subrange(0, w as int) =~= p2);
        assert(val_spec(p1) == val_spec(p2));
        assert(false);
    }
}

/// No character of the text is a path separator.
pub open spec fn no_sep(s: Seq<char>) -> bool {
    forall|k: int| 0 <= k < s.len() ==> s[k] != '/'
}

/// The decimal digits of a number hold no path separator.
pub proof fn lemma_dec_no_sep(n: nat)
    ensures
        no_sep(dec_spec(n)),
    decreases n,
{
    if n >= 10 {
        lemma_dec_no_sep(n / 10);
        assert forall|k: int| 0 <= k < dec_spec(n).len() implies dec_spec(n)[k] != '/' by {
            if k < dec_spec(n / 10).len() {
                assert(dec_spec(n)[k] == dec_spec(n / 10)[k]);
            }
        }
    }
}

/// A run of zeros holds no path separator.
pub proof fn lemma_zeros_no_sep(k: nat)
    ensures
        no_sep(zeros(k)),
    decreases k,
{
    if k > 0 {
        lemma_zeros_no_sep((k - 1) as nat);
        assert forall|t: int| 0 <= t < zeros(k).len() implies zeros(k)[t] != '/' by {
            if t < zeros((k - 1) as nat).len() {
                assert(zeros(k)[t] == zeros((k - 1) as nat)[t]);
            }
        }
    }
}

/// Joining two separator-free texts gives a separator-free text.
pub proof fn lemma_no_sep_concat(a: Seq<char>, b: Seq<char>)
    requires
        no_sep(a),
        no_sep(b),
    ensures
        no_sep(a + b),
{
    assert forall|k: int| 0 <= k < (a + b).len() implies (a + b)[k] != '/' by {
        if k < a.len() {
            assert((a + b)[k] == a[k]);
        } else {
            assert((a + b)[k] == b[k - a.len()]);
        }
    }
}

/// Sanitized text holds no path separator.
pub proof fn lemma_sanitize_no_sep(s: Seq<char>)
    ensures
        no_sep(sanitize_spec(s)),
{
    assert forall|k: int| 0 <= k < sanitize_spec(s).len() implies sanitize_spec(s)[k] != '/' by {
        assert(sanitize_spec(s)[k] == sanitize_char(s[k]));
    }
}

/// A generated filename is filesystem-safe: it holds no path separator.
pub proof fn lemma_filename_safe(
    index: nat,
    count: nat,
    id: Seq<char>,
    title: Option<Seq<char>>,
    desc: Option<Seq<char>>,
    ctype: Seq<char>,
)
    ensures
        no_sep(filename_spec(index, count, id, title, desc, ctype)),
{
    let w = width_spec(count);
    lemma_dec_no_sep(index + 1);
    lemma_zeros_no_sep((w - width_spec(index + 1)) as nat);
    if width_spec(index + 1) < w {
        lemma_no_sep_concat(zeros((w - width_spec(index + 1)) as nat), dec_spec(index + 1));
    }
    reveal_strlit(" - ");
    reveal_strlit(".");
    lemma_sanitize_no_sep(id);
    lemma_no_sep_concat(" - "@, sanitize_spec(id));
    match title {
        Some(t) => {
            lemma_sanitize_no_sep(t);
            lemma_no_sep_concat(" - "@, sanitize_spec(t));
        },
        None => {},
    }
    match desc {
        Some(t) => {
            lemma_sanitize_no_sep(t);
            lemma_no_sep_concat(" - "@, sanitize_spec(t));
        },
        None => {},
    }
    lemma_sanitize_no_sep(ext_spec(ctype));
    let r1 = " - "@ + sanitize_spec(id);
    let r2 = r1 + opt_tag(title);
    let r3 = r2 + opt_tag(desc);
    let r4 = r3 + "."@;
    let r5 = r4 + sanitize_spec(ext_spec(ctype));
    lemma_no_sep_concat(r1, opt_tag(title));
    lemma_no_sep_concat(r2, opt_tag(desc));
    lemma_no_sep_concat(r3, "."@);
    lemma_no_sep_concat(r4, sanitize_spec(ext_spec(ctype)));
    lemma_no_sep_concat(padded_spec(index + 1, w), r5);
}

} // verus!
