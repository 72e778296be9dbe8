//! Conversion between the host's terminator-delimited byte strings and
//! native strings. Neither direction fails: a terminator byte inside a native
//! string is dropped on the way to the host, and host bytes that are not
//! valid UTF-8 decode with replacement characters.
use vstd::prelude::*;
use vstd::utf8::{decode_utf8, encode_scalar, encode_utf8, valid_utf8};

verus! {

broadcast use vstd::utf8::encode_utf8_valid_utf8, vstd::utf8::encode_utf8_decode_utf8;

/// `b` with every terminator (zero) byte removed.
pub open spec fn strip_nul(b: Seq<u8>) -> Seq<u8>
    decreases b.len(),
{
    if b.len() == 0 {
        b
    } else if b.last() == 0 {
        strip_nul(b.drop_last())
    } else {
        strip_nul(b.drop_last()).push(b.last())
    }
}

/// The bytes the host sees for the text `s`: its UTF-8 encoding without
/// terminator bytes.
pub open spec fn host_bytes(s: Seq<char>) -> Seq<u8> {
    strip_nul(encode_utf8(s))
}

/// The bytes of a host string before its first terminator byte, or all of
/// them when there is none.
pub open spec fn until_nul(b: Seq<u8>) -> Seq<u8>
    decreases b.len(),
{
    if b.len() == 0 {
        b
    } else if b[0] == 0 {
        Seq::empty()
    } else {
        seq![b[0]] + until_nul(b.drop_first())
    }
}

/// What `String::from_utf8_lossy` makes of `b`.
pub uninterp spec fn lossy_utf8(b: Seq<u8>) -> Seq<char>;

/// The text that `b` decodes to, replacement characters included.
pub open spec fn decode_lossy_text(b: Seq<u8>) -> Seq<char> {
    if valid_utf8(b) {
        decode_utf8(b)
    } else {
        lossy_utf8(b)
    }
}

/// The native text read from the host bytes `b`.
pub open spec fn host_text(b: Seq<u8>) -> Seq<char> {
    decode_lossy_text(until_nul(b))
}

/// Relies on `String::from_utf8_lossy`: bytes that are valid UTF-8 decode to
/// the text they encode; invalid sequences become U+FFFD, so bytes without a
/// zero byte give text without the NUL character.
#[verifier::external_body]
fn decode_lossy(b: &[u8]) -> (r: String)
    ensures
        !valid_utf8(b@) ==> r@ == lossy_utf8(b@),
        valid_utf8(b@) ==> r@ == decode_utf8(b@),
        !b@.contains(0) ==> !r@.contains('\0'),
{
    String::from_utf8_lossy(b).into_owned()
}

/// A byte string that the host can read: it holds no terminator byte, the
/// host appends one.
pub struct LossyCString {
    bytes: Vec<u8>,
}

impl View for LossyCString {
    type V = Seq<u8>;

    closed spec fn view(&self) -> Seq<u8> {
        self.bytes@
    }
}

pub proof fn lemma_strip_nul_has_no_nul(b: Seq<u8>)
    ensures
        !strip_nul(b).contains(0),
    decreases b.len(),
{
    if b.len() > 0 {
        lemma_strip_nul_has_no_nul(b.drop_last());
        let p = strip_nul(b.drop_last());
        if b.last() != 0 {
            assert forall|i: int| 0 <= i < p.push(b.last()).len() implies p.push(b.last())[i] != 0 by {
                if i < p.len() {
                    assert(p.push(b.last())[i] == p[i]);
                }
            }
        }
    }
}

pub proof fn lemma_strip_nul_keeps_clean(b: Seq<u8>)
    requires
        !b.contains(0),
    ensures
        strip_nul(b) == b,
    decreases b.len(),
{
    if b.len() > 0 {
        assert(!b.drop_last().contains(0)) by {
            assert forall|i: int| 0 <= i < b.drop_last().len() implies b.drop_last()[i] != 0 by {
                assert(b.drop_last()[i] == b[i]);
            }
        }
        lemma_strip_nul_keeps_clean(b.drop_last());
        assert(b.last() == b[b.len() - 1]);
        assert(b.drop_last().push(b.last()) =~= b);
    }
}

proof fn lemma_until_nul_clean(b: Seq<u8>)
    requires
        !b.contains(0),
    ensures
        until_nul(b) == b,
    decreases b.len(),
{
    if b.len() > 0 {
        assert(b[0] != 0) by {
            assert(b.contains(b[0]) ==> b[0] != 0);
        }
        assert(!b.drop_first().contains(0)) by {
            assert forall|i: int| 0 <= i < b.drop_first().len() implies b.drop_first()[i] != 0 by {
                assert(b.drop_first()[i] == b[i + 1]);
            }
        }
        lemma_until_nul_clean(b.drop_first());
        assert(seq![b[0]] + b.drop_first() =~= b);
    }
}

proof fn lemma_scalar_has_no_nul(v: u32)
    requires
        v != 0,
    ensures
        !encode_scalar(v).contains(0),
{
    let e = encode_scalar(v);
    assert((v <= 0x7F && v != 0) ==> (v & 0x7F) as u8 != 0) by (bit_vector);
    assert(forall|x: u8| #[trigger] (0xC0u8 | x) != 0) by (bit_vector);
    assert(forall|x: u8| #[trigger] (0xE0u8 | x) != 0) by (bit_vector);
    assert(forall|x: u8| #[trigger] (0xF0u8 | x) != 0) by (bit_vector);
    assert(forall|x: u8| #[trigger] (0x80u8 | x) != 0) by (bit_vector);
    assert forall|i: int| 0 <= i < e.len() implies e[i] != 0 by {}
}

/// Text without the NUL character encodes to bytes without a terminator.
pub proof fn lemma_encode_has_no_nul(s: Seq<char>)
    requires
        !s.contains('\0'),
    ensures
        !encode_utf8(s).contains(0),
    decreases s.len(),
{
    if s.len() > 0 {
        assert(s[0] != '\0') by {
            assert(s.contains(s[0]));
        }
        assert((s[0] as u32) != 0) by {
            assert(('\0' as u32) == 0);
            vstd::utf8::char_u32_cast(s[0], s[0] as u32);
        }
        lemma_scalar_has_no_nul(s[0] as u32);
        assert(!s.drop_first().contains('\0')) by {
            assert forall|i: int| 0 <= i < s.drop_first().len() implies s.drop_first()[i] != '\0' by {
                assert(s.drop_first()[i] == s[i + 1]);
            }
        }
        lemma_encode_has_no_nul(s.drop_first());
        let a = encode_scalar(s[0] as u32);
        let b = encode_utf8(s.drop_first());
        assert forall|i: int| 0 <= i < (a + b).len() implies (a + b)[i] != 0 by {
            if i < a.len() {
                assert(a.contains(a[i]));
            } else {
                assert(b.contains(b[i - a.len()]));
            }
        }
    }
}

/// Text without the NUL character survives the trip to the host and back:
/// reading the host bytes made from `s` gives `s` again.
pub proof fn lemma_round_trip(s: Seq<char>)
    requires
        !s.contains('\0'),
    ensures
        host_text(host_bytes(s)) == s,
{
    lemma_encode_has_no_nul(s);
    lemma_strip_nul_keeps_clean(encode_utf8(s));
    lemma_until_nul_clean(encode_utf8(s));
}

/// Neither direction can put a terminator byte where the host would cut the
/// string short: the bytes made from any text hold none, and the bytes read
/// from any host string are those before its first terminator.
pub proof fn lemma_no_embedded_nul(s: Seq<char>, b: Seq<u8>)
    ensures
        !host_bytes(s).contains(0),
        !until_nul(b).contains(0),
        until_nul(b).len() <= b.len(),
        b.len() > until_nul(b).len() ==> b[until_nul(b).len() as int] == 0,
        until_nul(b) == b.subrange(0, until_nul(b).len() as int),
    decreases b.len(),
{
    lemma_strip_nul_has_no_nul(encode_utf8(s));
    if b.len() > 0 && b[0] != 0 {
        lemma_no_embedded_nul(s, b.drop_first());
        let r = until_nul(b.drop_first());
        assert forall|i: int| 0 <= i < (seq![b[0]] + r).len() implies (seq![b[0]] + r)[i] != 0 by {
            if i > 0 {
                assert(r.contains(r[i - 1]));
            }
        }
        assert(seq![b[0]] + b.drop_first().subrange(0, r.len() as int) =~= b.subrange(0, r.len() as int + 1));
    } else {
        assert(until_nul(b) =~= b.subrange(0, 0));
    }
}

impl LossyCString {
    /// Converts `s` for the host, dropping any terminator byte it holds.
    pub fn new(s: &str) -> (r: LossyCString)
        ensures
            r@ == host_bytes(s@),
            !r@.contains(0),
    {
        let b = s.as_bytes();
        let mut out: Vec<u8> = Vec::new();
        let mut i: usize = 0;
        while i < b.len()
            invariant
                b@ == encode_utf8(s@),
                i <= b@.len(),
                out@ == strip_nul(b@.subrange(0, i as int)),
            decreases b@.len() - i,
        {
            assert(b@.subrange(0, i + 1).drop_last() =~= b@.subrange(0, i as int));
            if b[i] != 0 {
                out.push(b[i]);
            }
            i = i + 1;
        }
        assert(b@.subrange(0, b@.len() as int) =~= b@);
        proof { lemma_strip_nul_has_no_nul(b@); }
        LossyCString { bytes: out }
    }

    /// The bytes handed to the host, without the final terminator.
    pub fn as_bytes(&self) -> (r: &[u8])
        ensures
            r@ == self@,
    {
        self.bytes.as_slice()
    }

    /// The bytes with the terminator the host expects at the end.
    pub fn to_bytes_with_nul(&self) -> (r: Vec<u8>)
        ensures
            r@ == self@.push(0),
    {
        let mut r = self.bytes.clone();
        r.push(0);
        r
    }
}

/// Whether two texts are equal, compared through their UTF-8 bytes.
pub fn str_eq(a: &str, b: &str) -> (r: bool)
    ensures
        r == (a@ == b@),
{
    let x = a.as_bytes();
    let y = b.as_bytes();
    if x.len() != y.len() {
        return false;
    }
    let mut i: usize = 0;
    while i < x.len()
        invariant
            x@ == encode_utf8(a@),
            y@ == encode_utf8(b@),
            x@.len() == y@.len(),
            i <= x@.len(),
            x@.subrange(0, i as int) == y@.subrange(0, i as int),
        decreases x@.len() - i,
    {
        if x[i] != y[i] {
            assert(x@[i as int] != y@[i as int]);
            return false;
        }
        assert(x@.subrange(0, i + 1) =~= x@.subrange(0, i as int).push(x@[i as int]));
        assert(y@.subrange(0, i + 1) =~= y@.subrange(0, i as int).push(y@[i as int]));
        i = i + 1;
    }
    assert(x@ =~= x@.subrange(0, i as int));
    assert(y@ =~= y@.subrange(0, i as int));
    assert(decode_utf8(encode_utf8(a@)) == a@);
    assert(decode_utf8(encode_utf8(b@)) == b@);
    true
}

/// Reads a host string: the bytes before the first terminator, decoded as
/// UTF-8 with replacement characters for invalid sequences.
pub fn from_host(b: &[u8]) -> (r: String)
    ensures
        r@ == host_text(b@),
        !r@.contains('\0'),
{
    let mut text: Vec<u8> = Vec::new();
    let mut i: usize = 0;
    let mut stop = false;
    assert(b@.subrange(0, b@.len() as int) =~= b@);
    assert(text@ + until_nul(b@) =~= until_nul(b@));
    while i < b.len() && !stop
        invariant
            i <= b@.len(),
            until_nul(b@) == text@ + (if stop { Seq::empty() } else { until_nul(b@.subrange(i as int, b@.len() as int)) }),
        decreases b@.len() - i + (if stop { 0int } else { 1int }),
    {
        let ghost rest = b@.subrange(i as int, b@.len() as int);
        assert(rest.drop_first() =~= b@.subrange(i + 1, b@.len() as int));
        assert(rest[0] == b[i as int]);
        if b[i] == 0 {
            stop = true;
            assert(text@ + Seq::<u8>::empty() =~= text@);
        } else {
            let ghost before = text@;
            text.push(b[i]);
            assert(before + until_nul(rest) =~= text@ + until_nul(b@.subrange(i + 1, b@.len() as int)));
            i = i + 1;
        }
    }
    if !stop {
        assert(b@.subrange(i as int, b@.len() as int).len() == 0);
        assert(text@ + b@.subrange(i as int, b@.len() as int) =~= text@);
    } else {
        assert(text@ + Seq::<u8>::empty() =~= text@);
    }
    proof {
        lemma_no_embedded_nul(Seq::empty(), b@);
    }
    decode_lossy(text.as_slice())
}

} // verus!
