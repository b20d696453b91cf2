use vstd::prelude::*;
use vstd::utf8::*;

verus! {

broadcast use {encode_utf8_valid_utf8, encode_utf8_decode_utf8};

/* What the text operations compute */

/// `s` with every leading `'/'` removed (what `str::trim_start_matches('/')` gives).
pub open spec fn trim_start_slashes(s: Seq<char>) -> Seq<char>
    decreases s.len(),
{
    if s.len() > 0 && s[0] == '/' {
        trim_start_slashes(s.drop_first())
    } else {
        s
    }
}

/// The text before the first `sep` and the text after it, or `None` when `s` holds no `sep`
/// (what `str::split_once(sep)` gives).
pub open spec fn split_once(s: Seq<char>, sep: char) -> Option<(Seq<char>, Seq<char>)>
    decreases s.len(),
{
    if s.len() == 0 {
        None
    } else if s[0] == sep {
        Some((Seq::empty(), s.drop_first()))
    } else {
        match split_once(s.drop_first(), sep) {
            Some((before, after)) => Some((seq![s[0]] + before, after)),
            None => None,
        }
    }
}

/// The text before the last `sep` and the text after it, or `None` when `s` holds no `sep`
/// (what `str::rsplit_once(sep)` gives).
pub open spec fn rsplit_once(s: Seq<char>, sep: char) -> Option<(Seq<char>, Seq<char>)>
    decreases s.len(),
{
    if s.len() == 0 {
        None
    } else if s.last() == sep {
        Some((s.drop_last(), Seq::empty()))
    } else {
        match rsplit_once(s.drop_last(), sep) {
            Some((before, after)) => Some((before, after.push(s.last()))),
            None => None,
        }
    }
}

/// The view of an optional string slice.
pub open spec fn opt_view(o: Option<&str>) -> Option<Seq<char>> {
    match o {
        Some(s) => Some(s@),
        None => None,
    }
}

/// The name of what `String::from_utf8_lossy` makes of bytes that are not valid UTF-8.
pub uninterp spec fn lossy_utf8(bytes: Seq<u8>) -> Seq<char>;

/// The text that `String::from_utf8_lossy` gives for `bytes`: their decoding when they are valid
/// UTF-8, and otherwise the replacement-character decoding that `lossy_utf8` names.
pub open spec fn utf8_text(bytes: Seq<u8>) -> Seq<char> {
    if valid_utf8(bytes) {
        decode_utf8(bytes)
    } else {
        lossy_utf8(bytes)
    }
}

/* Facts about UTF-8 encoding */

/// Encoding is compatible with concatenation.
pub proof fn lemma_encode_utf8_append(a: Seq<char>, b: Seq<char>)
    ensures
        encode_utf8(a + b) == encode_utf8(a) + encode_utf8(b),
    decreases a.len(),
{
    if a.len() == 0 {
        assert(a + b =~= b);
    } else {
        assert((a + b).drop_first() =~= a.drop_first() + b);
        lemma_encode_utf8_append(a.drop_first(), b);
        assert((a + b)[0] == a[0]);
    }
}

/// The encoding is empty exactly for the empty text.
pub proof fn lemma_encode_utf8_empty(s: Seq<char>)
    ensures
        (encode_utf8(s).len() == 0) == (s.len() == 0),
        s.len() <= encode_utf8(s).len(),
    decreases s.len(),
{
    if s.len() > 0 {
        lemma_encode_utf8_empty(s.drop_first());
    }
}

/// The first byte of an encoding is an ASCII byte exactly when the first character is ASCII,
/// and then it is that character.
pub proof fn lemma_first_byte(s: Seq<char>)
    requires
        s.len() > 0,
    ensures
        encode_utf8(s).len() > 0,
        (encode_utf8(s)[0] < 0x80) == ((s[0] as u32) < 0x80),
        (s[0] as u32) < 0x80 ==> encode_utf8(s)[0] as u32 == s[0] as u32,
        (s[0] as u32) < 0x80 ==> encode_utf8(s) == seq![encode_utf8(s)[0]] + encode_utf8(
            s.drop_first(),
        ),
{
    let c: u32 = s[0] as u32;
    char_is_scalar(s[0]);
    lemma_encode_utf8_empty(s.drop_first());
    let e = encode_utf8(s);
    assert(e == encode_scalar(c) + encode_utf8(s.drop_first()));
    if has_width_1_encoding(c) {
        assert(leading_byte_width_1(c) as u32 == c && (leading_byte_width_1(c) as u32) < 0x80)
            by (bit_vector)
            requires
                c <= 0x7f,
        ;
        assert(encode_scalar(c) == seq![leading_byte_width_1(c)]);
        assert(e[0] == leading_byte_width_1(c));
        assert(e =~= seq![e[0]] + encode_utf8(s.drop_first()));
    } else if has_width_2_encoding(c) {
        assert(leading_byte_width_2(c) >= 0x80) by (bit_vector);
        assert(e[0] == leading_byte_width_2(c));
    } else if has_width_3_encoding(c) {
        assert(leading_byte_width_3(c) >= 0x80) by (bit_vector);
        assert(e[0] == leading_byte_width_3(c));
    } else {
        assert(leading_byte_width_4(c) >= 0x80) by (bit_vector);
        assert(e[0] == leading_byte_width_4(c));
    }
}

/// An ASCII character of a text shows up as its byte in the encoding.
pub proof fn lemma_ascii_char_in_encoding(s: Seq<char>, i: int)
    requires
        0 <= i < s.len(),
        (s[i] as u32) < 0x80,
    ensures
        encode_utf8(s.take(i)).len() < encode_utf8(s).len(),
        encode_utf8(s)[encode_utf8(s.take(i)).len() as int] as u32 == s[i] as u32,
{
    assert(s =~= s.take(i) + s.skip(i));
    lemma_encode_utf8_append(s.take(i), s.skip(i));
    lemma_first_byte(s.skip(i));
}

/// A text whose encoding holds no byte `b` holds no ASCII character `c` with that byte.
pub proof fn lemma_no_ascii_char(s: Seq<char>, c: char, b: u8)
    requires
        (c as u32) < 0x80,
        b as u32 == c as u32,
        !encode_utf8(s).contains(b),
    ensures
        !s.contains(c),
{
    if s.contains(c) {
        let i = choose|i: int| 0 <= i < s.len() && s[i] == c;
        lemma_ascii_char_in_encoding(s, i);
        let j = encode_utf8(s.take(i)).len() as int;
        assert(encode_utf8(s)[j] == b);
    }
}

/// Trimming the leading slashes keeps a suffix of the text, drops only slashes, and leaves a
/// text that does not begin with a slash.
pub proof fn lemma_trim_start_slashes(s: Seq<char>)
    ensures
        trim_start_slashes(s).len() <= s.len(),
        s.skip(s.len() - trim_start_slashes(s).len()) == trim_start_slashes(s),
        forall|i: int| 0 <= i < s.len() - trim_start_slashes(s).len() ==> s[i] == '/',
        trim_start_slashes(s).len() > 0 ==> trim_start_slashes(s)[0] != '/',
    decreases s.len(),
{
    if s.len() > 0 && s[0] == '/' {
        let t = s.drop_first();
        lemma_trim_start_slashes(t);
        let r = trim_start_slashes(t);
        assert(s.skip(s.len() - r.len()) =~= t.skip(t.len() - r.len()));
        assert forall|i: int| 0 <= i < s.len() - r.len() implies s[i] == '/' by {
            if i > 0 {
                assert(s[i] == t[i - 1]);
            }
        }
    } else {
        assert(s.skip(0) =~= s);
    }
}

/// `split_once` finds the separator where it first occurs.
pub proof fn lemma_split_once_at(s: Seq<char>, sep: char, a: Seq<char>, b: Seq<char>)
    requires
        s == a + seq![sep] + b,
        !a.contains(sep),
    ensures
        split_once(s, sep) == Some((a, b)),
    decreases a.len(),
{
    if a.len() == 0 {
        assert(s.drop_first() =~= b);
    } else {
        assert(a[0] != sep);
        let t = a.drop_first();
        assert(!t.contains(sep)) by {
            if t.contains(sep) {
                let j = choose|j: int| 0 <= j < t.len() && t[j] == sep;
                assert(a[j + 1] == sep);
            }
        }
        assert(s.drop_first() =~= t + seq![sep] + b);
        lemma_split_once_at(s.drop_first(), sep, t, b);
        assert(seq![s[0]] + t =~= a);
    }
}

/// `split_once` finds nothing in a text without the separator.
pub proof fn lemma_split_once_none(s: Seq<char>, sep: char)
    requires
        !s.contains(sep),
    ensures
        split_once(s, sep) is None,
    decreases s.len(),
{
    if s.len() > 0 {
        assert(s[0] != sep);
        let t = s.drop_first();
        assert(!t.contains(sep)) by {
            if t.contains(sep) {
                let j = choose|j: int| 0 <= j < t.len() && t[j] == sep;
                assert(s[j + 1] == sep);
            }
        }
        lemma_split_once_none(t, sep);
    }
}

/// `rsplit_once` finds the separator where it last occurs.
pub proof fn lemma_rsplit_once_at(s: Seq<char>, sep: char, a: Seq<char>, b: Seq<char>)
    requires
        s == a + seq![sep] + b,
        !b.contains(sep),
    ensures
        rsplit_once(s, sep) == Some((a, b)),
    decreases b.len(),
{
    if b.len() == 0 {
        assert(s.drop_last() =~= a);
    } else {
        assert(b.last() != sep);
        let t = b.drop_last();
        assert(!t.contains(sep)) by {
            if t.contains(sep) {
                let j = choose|j: int| 0 <= j < t.len() && t[j] == sep;
                assert(b[j] == sep);
            }
        }
        assert(s.last() == b.last());
        assert(s.drop_last() =~= a + seq![sep] + t);
        lemma_rsplit_once_at(s.drop_last(), sep, a, t);
        assert(t.push(b.last()) =~= b);
    }
}

/// `rsplit_once` finds nothing in a text without the separator.
pub proof fn lemma_rsplit_once_none(s: Seq<char>, sep: char)
    requires
        !s.contains(sep),
    ensures
        rsplit_once(s, sep) is None,
    decreases s.len(),
{
    if s.len() > 0 {
        assert(s.last() != sep);
        let t = s.drop_last();
        assert(!t.contains(sep)) by {
            if t.contains(sep) {
                let j = choose|j: int| 0 <= j < t.len() && t[j] == sep;
                assert(s[j] == sep);
            }
        }
        lemma_rsplit_once_none(t, sep);
    }
}

/* Operations on strings */

/// The byte of `'/'`.
pub const SLASH: u8 = 0x2f;

/// The byte of `'O'`.
pub const LETTER_O: u8 = 0x4f;

/// The byte of `'K'`.
pub const LETTER_K: u8 = 0x4b;

/// Whether two strings are equal.
pub fn str_eq(a: &str, b: &str) -> (r: bool)
    ensures
        r == (a@ == b@),
{
    let x = a.as_bytes();
    let y = b.as_bytes();
    if x.len() != y.len() {
        return false;
    }
    let mut i: usize = 0;
    while i < x.len()
        invariant
            x@ == encode_utf8(a@),
            y@ == encode_utf8(b@),
            x@.len() == y@.len(),
            i <= x@.len(),
            forall|j: int| 0 <= j < i ==> x@[j] == y@[j],
        decreases x@.len() - i,
    {
        if x[i] != y[i] {
            return false;
        }
        i = i + 1;
    }
    assert(x@ =~= y@);
    assert(decode_utf8(encode_utf8(a@)) == a@);
    assert(decode_utf8(encode_utf8(b@)) == b@);
    true
}

/// The string after its first character, for a string that begins with an ASCII character.
fn skip_ascii_char(s: &str) -> (r: &str)
    requires
        s@.len() > 0,
        (s@[0] as u32) < 0x80,
    ensures
        r@ == s@.drop_first(),
{
    proof {
        lemma_first_byte(s@);
        let bytes = encode_utf8(s@);
        assert(is_char_boundary(bytes, 1)) by {
            assert(length_of_first_scalar(bytes) == 1);
            assert(is_char_boundary(pop_first_scalar(bytes), 0));
        }
    }
    let (_, rest) = s.split_at(1);
    proof {
        let bytes = encode_utf8(s@);
        assert(encode_utf8(rest@) =~= encode_utf8(s@.drop_first()));
        assert(decode_utf8(encode_utf8(rest@)) == rest@);
    }
    rest
}

/// `s` without its leading slashes.
pub fn trim_start_slashes_str(s: &str) -> (r: &str)
    ensures
        r@ == trim_start_slashes(s@),
{
    let mut rest = s;
    loop
        invariant
            trim_start_slashes(rest@) == trim_start_slashes(s@),
        decreases rest@.len(),
    {
        let bytes = rest.as_bytes();
        proof {
            lemma_encode_utf8_empty(rest@);
        }
        if bytes.len() == 0 {
            assert(rest@.len() == 0);
            return rest;
        }
        proof {
            lemma_first_byte(rest@);
        }
        if bytes[0] != SLASH {
            assert(rest@[0] != '/') by {
                if rest@[0] == '/' {
                    assert((rest@[0] as u32) < 0x80);
                    assert(bytes@[0] as u32 == 0x2f);
                }
            }
            return rest;
        }
        assert((rest@[0] as u32) < 0x80);
        assert(rest@[0] as u32 == 0x2f);
        proof {
            char_u32_cast(rest@[0], 0x2f);
        }
        assert(rest@[0] == '/');
        rest = skip_ascii_char(rest);
    }
}

/// The parts of `s` before and after the first `sep`, or `None` when there is no `sep`.
pub fn split_once_str(s: &str, sep: char) -> (r: Option<(&str, &str)>)
    requires
        (sep as u32) < 0x80,
    ensures
        match r {
            Some((a, b)) => split_once(s@, sep) == Some((a@, b@)),
            None => split_once(s@, sep) is None,
        },
{
    let ghost bytes_spec = encode_utf8(s@);
    let bytes = s.as_bytes();
    let code: u32 = sep as u32;
    let sep_byte: u8 = code as u8;
    assert(sep_byte as u32 == code && sep_byte < 0x80) by (bit_vector)
        requires
            code < 0x80,
            sep_byte == code as u8,
    ;
    let mut k: usize = 0;
    while k < bytes.len() && bytes[k] != sep_byte
        invariant
            bytes@ == bytes_spec,
            k <= bytes@.len(),
            forall|j: int| 0 <= j < k ==> bytes@[j] != sep_byte,
        decreases bytes@.len() - k,
    {
        k = k + 1;
    }
    if k == bytes.len() {
        proof {
            assert(!bytes_spec.contains(sep_byte));
            lemma_no_ascii_char(s@, sep, sep_byte);
            lemma_split_once_none(s@, sep);
        }
        return None;
    }
    proof {
        assert(bytes_spec[k as int] == sep_byte);
        assert(is_leading_byte_width_1(bytes_spec[k as int]));
        is_char_boundary_iff_is_leading_byte(bytes_spec, k as int);
        assert(is_char_boundary(bytes_spec, k as int));
    }
    let (a, rest) = s.split_at(k);
    proof {
        assert(encode_utf8(a@) =~= bytes_spec.subrange(0, k as int));
        assert(encode_utf8(rest@) =~= bytes_spec.subrange(k as int, bytes_spec.len() as int));
        decode_utf8_split(bytes_spec, k as int);
        assert(decode_utf8(encode_utf8(a@)) == a@);
        assert(decode_utf8(encode_utf8(rest@)) == rest@);
        assert(s@ == a@ + rest@);
        lemma_encode_utf8_empty(rest@);
        lemma_first_byte(rest@);
        assert(encode_utf8(rest@)[0] == sep_byte);
        assert(rest@[0] as u32 == sep as u32);
        assert(rest@[0] == sep);
        assert(!encode_utf8(a@).contains(sep_byte)) by {
            if encode_utf8(a@).contains(sep_byte) {
                let j = choose|j: int|
                    0 <= j < encode_utf8(a@).len() && encode_utf8(a@)[j] == sep_byte;
                assert(bytes@[j] == sep_byte);
            }
        }
        lemma_no_ascii_char(a@, sep, sep_byte);
    }
    let b = skip_ascii_char(rest);
    proof {
        assert(s@ =~= a@ + seq![sep] + b@);
        lemma_split_once_at(s@, sep, a@, b@);
    }
    Some((a, b))
}

/// The parts of `s` before and after the last `sep`, or `None` when there is no `sep`.
pub fn rsplit_once_str(s: &str, sep: char) -> (r: Option<(&str, &str)>)
    requires
        (sep as u32) < 0x80,
    ensures
        match r {
            Some((a, b)) => rsplit_once(s@, sep) == Some((a@, b@)),
            None => rsplit_once(s@, sep) is None,
        },
{
    let ghost bytes_spec = encode_utf8(s@);
    let bytes = s.as_bytes();
    let code: u32 = sep as u32;
    let sep_byte: u8 = code as u8;
    assert(sep_byte as u32 == code && sep_byte < 0x80) by (bit_vector)
        requires
            code < 0x80,
            sep_byte == code as u8,
    ;
    let mut k: usize = bytes.len();
    while k > 0 && bytes[k - 1] != sep_byte
        invariant
            bytes@ == bytes_spec,
            k <= bytes@.len(),
            forall|j: int| k <= j < bytes@.len() ==> bytes@[j] != sep_byte,
        decreases k,
    {
        k = k - 1;
    }
    if k == 0 {
        proof {
            assert(!bytes_spec.contains(sep_byte));
            lemma_no_ascii_char(s@, sep, sep_byte);
            lemma_rsplit_once_none(s@, sep);
        }
        return None;
    }
    let at: usize = k - 1;
    proof {
        assert(bytes_spec[at as int] == sep_byte);
        assert(is_leading_byte_width_1(bytes_spec[at as int]));
        is_char_boundary_iff_is_leading_byte(bytes_spec, at as int);
        assert(is_char_boundary(bytes_spec, at as int));
    }
    let (a, rest) = s.split_at(at);
    proof {
        assert(encode_utf8(a@) =~= bytes_spec.subrange(0, at as int));
        assert(encode_utf8(rest@) =~= bytes_spec.subrange(at as int, bytes_spec.len() as int));
        decode_utf8_split(bytes_spec, at as int);
        assert(decode_utf8(encode_utf8(a@)) == a@);
        assert(decode_utf8(encode_utf8(rest@)) == rest@);
        assert(s@ == a@ + rest@);
        lemma_encode_utf8_empty(rest@);
        lemma_first_byte(rest@);
        assert(encode_utf8(rest@)[0] == sep_byte);
        assert(rest@[0] as u32 == sep as u32);
        assert(rest@[0] == sep);
    }
    let b = skip_ascii_char(rest);
    proof {
        let eb = encode_utf8(b@);
        let er = encode_utf8(rest@);
        assert(b@ == rest@.drop_first());
        assert(er == seq![er[0]] + eb);
        assert(er == bytes_spec.subrange(at as int, bytes_spec.len() as int));
        assert(eb =~= er.drop_first());
        assert(eb =~= bytes_spec.subrange(k as int, bytes_spec.len() as int));
        assert(!eb.contains(sep_byte)) by {
            if eb.contains(sep_byte) {
                let j = choose|j: int| 0 <= j < eb.len() && eb[j] == sep_byte;
                assert(bytes@[j + k] == sep_byte);
            }
        }
        lemma_no_ascii_char(b@, sep, sep_byte);
        assert(s@ =~= a@ + seq![sep] + b@);
        lemma_rsplit_once_at(s@, sep, a@, b@);
    }
    Some((a, b))
}

/// Whether `line` begins with `OK`.
pub fn starts_with_ok(line: &str) -> (r: bool)
    ensures
        r == (line@.len() >= 2 && line@[0] == 'O' && line@[1] == 'K'),
{
    let bytes = line.as_bytes();
    proof {
        lemma_encode_utf8_empty(line@);
    }
    if bytes.len() == 0 {
        return false;
    }
    proof {
        lemma_first_byte(line@);
    }
    if bytes[0] != LETTER_O {
        proof {
            if line@[0] == 'O' {
                assert(bytes@[0] == LETTER_O);
            }
        }
        return false;
    }
    let rest = skip_ascii_char(line);
    proof {
        assert(bytes@.len() >= 1);
        lemma_encode_utf8_empty(rest@);
    }
    let rest_bytes = rest.as_bytes();
    if rest_bytes.len() == 0 {
        return false;
    }
    proof {
        lemma_first_byte(rest@);
    }
    if rest_bytes[0] != LETTER_K {
        proof {
            if rest@[0] == 'K' {
                assert(rest_bytes@[0] == LETTER_K);
            }
        }
        return false;
    }
    proof {
        assert(bytes@[0] as u32 == 0x4f);
        assert((line@[0] as u32) < 0x80);
        char_u32_cast(line@[0], 0x4f);
        assert(rest_bytes@[0] as u32 == 0x4b);
        assert((rest@[0] as u32) < 0x80);
        char_u32_cast(rest@[0], 0x4b);
        assert(line@[1] == rest@[0]);
    }
    true
}

/// Appends the UTF-8 bytes of `s` to `out`.
pub fn extend_with_str(out: &mut Vec<u8>, s: &str)
    ensures
        final(out)@ == old(out)@ + encode_utf8(s@),
{
    let bytes = s.as_bytes();
    out.extend_from_slice(bytes);
    assert(final(out)@ =~= old(out)@ + encode_utf8(s@));
}

/// Decodes bytes as UTF-8, putting replacement characters where they are not valid.
#[verifier::external_body]
pub(crate) fn utf8_lossy(bytes: &[u8]) -> (res: String)
    ensures
        res@ == (if valid_utf8(bytes@) {
            decode_utf8(bytes@)
        } else {
            lossy_utf8(bytes@)
        }),
{
    String::from_utf8_lossy(bytes).into_owned()
}

} // verus!
