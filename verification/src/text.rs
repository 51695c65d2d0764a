use vstd::prelude::*;
use vstd::string::*;

verus! {

/// Upper bound on byte buffers handed to the legacy-text decoder, so that
/// the decoder's internal size arithmetic cannot overflow on any platform.
pub const MAX_TEXT_LEN: usize = 0x0FFF_FFFF;

/// What the legacy Japanese decode of a byte sequence yields: the decoded
/// characters, and whether any malformed sequence had to be replaced. The
/// decode depends on the bytes alone.
pub uninterp spec fn sjis_decoding(bytes: Seq<u8>) -> (Seq<char>, bool);

/// Relies on `encoding_rs::SHIFT_JIS.decode_without_bom_handling`: decodes
/// Shift-JIS bytes to text, replacing malformed sequences and reporting in
/// the flag whether any replacement happened; the result depends on the
/// bytes alone.
#[verifier::external_body]
fn decode_sjis(bytes: &[u8]) -> (r: (String, bool))
    requires
        bytes@.len() <= MAX_TEXT_LEN,
    ensures
        r.0@ == sjis_decoding(bytes@).0,
        r.1 == sjis_decoding(bytes@).1,
{
    let (cow, had_errors) = encoding_rs::SHIFT_JIS.decode_without_bom_handling(bytes);
    (cow.into_owned(), had_errors)
}

/// Relies on `String::push`: appends one character at the end.
#[verifier::external_body]
fn push_char(s: &mut String, c: char)
    ensures
        final(s)@ == old(s)@.push(c),
{
    s.push(c);
}

/// Decoded text plus a fidelity flag: whether any byte sequence had to be
/// replaced while decoding.
pub struct DecodedText {
    text: String,
    had_errors: bool,
}

impl DecodedText {
    pub closed spec fn spec_text(&self) -> Seq<char> {
        self.text@
    }

    pub closed spec fn spec_had_errors(&self) -> bool {
        self.had_errors
    }

    pub fn text(&self) -> (r: &str)
        ensures
            r@ == self.spec_text(),
    {
        self.text.as_str()
    }

    pub fn had_errors(&self) -> (r: bool)
        ensures
            r == self.spec_had_errors(),
    {
        self.had_errors
    }
}

/// Decode bytes of the legacy double-byte Japanese encoding into canonical
/// text, substituting the replacement character for malformed sequences and
/// reporting whether any substitution happened.
pub fn decode_text(bytes: &[u8]) -> (r: DecodedText)
    requires
        bytes@.len() <= MAX_TEXT_LEN,
    ensures
        r.spec_text() == sjis_decoding(bytes@).0,
        r.spec_had_errors() == sjis_decoding(bytes@).1,
{
    let (text, had_errors) = decode_sjis(bytes);
    DecodedText { text, had_errors }
}

/// Whether a path piece survives normalization: empty pieces and the two
/// relative-reference pieces are dropped, which also bars path traversal.
pub open spec fn keep_component(c: Seq<char>) -> bool {
    c.len() > 0 && c != seq!['.'] && c != seq!['.', '.']
}

/// Accumulator form of the backslash split: `cur` is the piece being built,
/// `acc` the surviving components so far.
pub open spec fn comps_acc(
    s: Seq<char>,
    i: int,
    cur: Seq<char>,
    acc: Seq<Seq<char>>,
) -> Seq<Seq<char>>
    decreases s.len() - i,
{
    if i < 0 || i >= s.len() {
        if keep_component(cur) {
            acc.push(cur)
        } else {
            acc
        }
    } else if s[i] == '\\' {
        comps_acc(
            s,
            i + 1,
            Seq::<char>::empty(),
            if keep_component(cur) {
                acc.push(cur)
            } else {
                acc
            },
        )
    } else {
        comps_acc(s, i + 1, cur.push(s[i]), acc)
    }
}

/// The normalized path components of a decoded entry name: split on the
/// backslash, dropping empty and relative-reference pieces.
pub open spec fn path_components(s: Seq<char>) -> Seq<Seq<char>> {
    comps_acc(s, 0, Seq::<char>::empty(), Seq::<Seq<char>>::empty())
}

/// Whether this piece survives normalization.
fn is_kept_component(c: &String) -> (r: bool)
    ensures
        r == keep_component(c@),
{
    let n = c.as_str().unicode_len();
    if n == 0 {
        return false;
    }
    if n == 1 && c.as_str().get_char(0) == '.' {
        proof {
            assert(c@ =~= seq!['.']);
        }
        return false;
    }
    if n == 2 && c.as_str().get_char(0) == '.' && c.as_str().get_char(1) == '.' {
        proof {
            assert(c@ =~= seq!['.', '.']);
        }
        return false;
    }
    proof {
        if c@ == seq!['.'] {
            assert(c@.len() == 1 && c@[0] == '.');
        }
        if c@ == seq!['.', '.'] {
            assert(c@.len() == 2 && c@[0] == '.' && c@[1] == '.');
        }
    }
    true
}

/// Split a decoded entry name on backslashes into its normalized path
/// components.
pub fn split_components(s: &str) -> (r: Vec<String>)
    ensures
        r@.map_values(|c: String| c@) == path_components(s@),
{
    let n = s.unicode_len();
    let mut cur = String::new();
    let mut acc: Vec<String> = Vec::new();
    proof {
        assert(cur@ =~= Seq::<char>::empty());
        assert(acc@.map_values(|c: String| c@) =~= Seq::<Seq<char>>::empty());
    }
    let mut i: usize = 0;
    while i < n
        invariant
            i <= n,
            n == s@.len(),
            path_components(s@) == comps_acc(
                s@,
                i as int,
                cur@,
                acc@.map_values(|c: String| c@),
            ),
        decreases n - i,
    {
        let ghost prev_acc = acc@.map_values(|c: String| c@);
        let ghost prev_cur = cur@;
        let c = s.get_char(i);
        if c == '\\' {
            if is_kept_component(&cur) {
                acc.push(cur);
                proof {
                    assert(acc@.map_values(|c: String| c@) =~= prev_acc.push(prev_cur));
                }
            }
            cur = String::new();
        } else {
            push_char(&mut cur, c);
        }
        i = i + 1;
    }
    if is_kept_component(&cur) {
        let ghost prev_acc = acc@.map_values(|c: String| c@);
        let ghost prev_cur = cur@;
        acc.push(cur);
        proof {
            assert(acc@.map_values(|c: String| c@) =~= prev_acc.push(prev_cur));
        }
    }
    acc
}

/// The index of the last dot of a name, or a negative value when it has
/// none.
pub open spec fn last_dot(name: Seq<char>) -> int
    decreases name.len(),
{
    if name.len() == 0 {
        -1
    } else if name[name.len() - 1] == '.' {
        name.len() - 1
    } else {
        last_dot(name.drop_last())
    }
}

/// The extension of a file name: the characters after its last dot, unless
/// there is no dot or the only dot leads the name.
pub open spec fn spec_extension(name: Seq<char>) -> Option<Seq<char>> {
    let d = last_dot(name);
    if d <= 0 {
        None
    } else {
        Some(name.subrange(d + 1, name.len() as int))
    }
}

/// The extension of a file name, if it has one.
pub fn extension_of(name: &str) -> (r: Option<String>)
    ensures
        r is Some <==> spec_extension(name@) is Some,
        r matches Some(e) ==> Some(e@) == spec_extension(name@),
{
    let n = name.unicode_len();
    proof {
        assert(name@.take(n as int) =~= name@);
    }
    let mut j: usize = n;
    while j > 0
        invariant
            j <= n,
            n == name@.len(),
            last_dot(name@) == last_dot(name@.take(j as int)),
        decreases j,
    {
        let c = name.get_char(j - 1);
        proof {
            assert(name@.take(j as int).drop_last() =~= name@.take(j as int - 1));
            assert(name@.take(j as int)[j - 1] == name@[j - 1]);
        }
        if c == '.' {
            proof {
                assert(last_dot(name@.take(j as int)) == j - 1);
            }
            if j - 1 == 0 {
                return None;
            }
            let mut ext = String::new();
            let mut k: usize = j;
            while k < n
                invariant
                    j <= k <= n,
                    n == name@.len(),
                    ext@ =~= name@.subrange(j as int, k as int),
                decreases n - k,
            {
                let ghost prev = ext@;
                push_char(&mut ext, name.get_char(k));
                proof {
                    assert(name@.subrange(j as int, k as int + 1) =~= prev.push(name@[k as int]));
                }
                k = k + 1;
            }
            proof {
                assert(ext@ =~= name@.subrange(j as int, n as int));
            }
            return Some(ext);
        }
        j = j - 1;
    }
    proof {
        assert(name@.take(0) =~= Seq::<char>::empty());
    }
    None
}

/// A character with an ASCII capital letter lowered; anything else is kept.
pub open spec fn lower_char(c: char) -> char {
    if 'A' <= c && c <= 'Z' {
        ((c as u8) + 32) as char
    } else {
        c
    }
}

/// A name with every ASCII capital letter lowered.
pub open spec fn ascii_lower(s: Seq<char>) -> Seq<char> {
    s.map_values(|c: char| lower_char(c))
}

/// Lower every ASCII capital letter of a name.
pub fn to_ascii_lower(s: &str) -> (r: String)
    ensures
        r@ == ascii_lower(s@),
{
    let n = s.unicode_len();
    let mut out = String::new();
    let mut i: usize = 0;
    while i < n
        invariant
            i <= n,
            n == s@.len(),
            out@ =~= ascii_lower(s@.take(i as int)),
        decreases n - i,
    {
        let ghost prev = out@;
        let c = s.get_char(i);
        let u = c as u32;
        let lc: char = if 65 <= u && u <= 90 {
            ((u + 32) as u8) as char
        } else {
            c
        };
        proof {
            assert(lc == lower_char(s@[i as int]));
        }
        push_char(&mut out, lc);
        proof {
            assert(s@.take(i as int + 1).drop_last() =~= s@.take(i as int));
            assert(ascii_lower(s@.take(i as int + 1)) =~= ascii_lower(s@.take(i as int)).push(
                lower_char(s@[i as int]),
            ));
        }
        i = i + 1;
    }
    proof {
        assert(s@.take(n as int) =~= s@);
        assert(ascii_lower(s@.take(n as int)) =~= ascii_lower(s@));
    }
    out
}

} // verus!
