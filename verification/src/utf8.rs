use vstd::prelude::*;

use crate::error::PluginError;

verus! {

/// A UTF-8 continuation byte: `10xxxxxx`.
pub open spec fn is_continuation(b: u8) -> bool {
    0x80 <= b && b <= 0xBF
}

/// Well-formed UTF-8, by the shortest-form encoding table of RFC 3629:
/// one-byte sequences are ASCII; two-byte sequences start at 0xC2 (no
/// overlong forms); 0xE0 and 0xF0 restrict their second byte likewise;
/// 0xED excludes surrogates; 0xF4 caps the range at U+10FFFF.
pub open spec fn is_valid_utf8(s: Seq<u8>) -> bool
    decreases s.len(),
{
    if s.len() == 0 {
        true
    } else {
        let b0 = s[0];
        if b0 < 0x80 {
            is_valid_utf8(s.skip(1))
        } else if 0xC2 <= b0 && b0 <= 0xDF {
            &&& s.len() >= 2
            &&& is_continuation(s[1])
            &&& is_valid_utf8(s.skip(2))
        } else if b0 == 0xE0 {
            &&& s.len() >= 3
            &&& 0xA0 <= s[1] && s[1] <= 0xBF
            &&& is_continuation(s[2])
            &&& is_valid_utf8(s.skip(3))
        } else if (0xE1 <= b0 && b0 <= 0xEC) || b0 == 0xEE || b0 == 0xEF {
            &&& s.len() >= 3
            &&& is_continuation(s[1])
            &&& is_continuation(s[2])
            &&& is_valid_utf8(s.skip(3))
        } else if b0 == 0xED {
            &&& s.len() >= 3
            &&& 0x80 <= s[1] && s[1] <= 0x9F
            &&& is_continuation(s[2])
            &&& is_valid_utf8(s.skip(3))
        } else if b0 == 0xF0 {
            &&& s.len() >= 4
            &&& 0x90 <= s[1] && s[1] <= 0xBF
            &&& is_continuation(s[2])
            &&& is_continuation(s[3])
            &&& is_valid_utf8(s.skip(4))
        } else if 0xF1 <= b0 && b0 <= 0xF3 {
            &&& s.len() >= 4
            &&& is_continuation(s[1])
            &&& is_continuation(s[2])
            &&& is_continuation(s[3])
            &&& is_valid_utf8(s.skip(4))
        } else if b0 == 0xF4 {
            &&& s.len() >= 4
            &&& 0x80 <= s[1] && s[1] <= 0x8F
            &&& is_continuation(s[2])
            &&& is_continuation(s[3])
            &&& is_valid_utf8(s.skip(4))
        } else {
            false
        }
    }
}

/// Valid UTF-8 is closed under concatenation: sequences never span the
/// boundary, so appending one well-formed text to another is well-formed.
pub proof fn lemma_valid_utf8_concat(a: Seq<u8>, b: Seq<u8>)
    requires
        is_valid_utf8(a),
        is_valid_utf8(b),
    ensures
        is_valid_utf8(a + b),
    decreases a.len(),
{
    if a.len() == 0 {
        assert(a + b =~= b);
    } else {
        let b0 = a[0];
        assert((a + b)[0] == b0);
        if b0 < 0x80 {
            assert((a + b).skip(1) =~= a.skip(1) + b);
            lemma_valid_utf8_concat(a.skip(1), b);
        } else if 0xC2 <= b0 && b0 <= 0xDF {
            assert((a + b).skip(2) =~= a.skip(2) + b);
            lemma_valid_utf8_concat(a.skip(2), b);
        } else if b0 <= 0xEF {
            assert((a + b).skip(3) =~= a.skip(3) + b);
            lemma_valid_utf8_concat(a.skip(3), b);
        } else {
            assert((a + b).skip(4) =~= a.skip(4) + b);
            lemma_valid_utf8_concat(a.skip(4), b);
        }
    }
}

/// Whether `b` is a continuation byte.
fn is_continuation_byte(b: u8) -> (r: bool)
    ensures
        r == is_continuation(b),
{
    0x80 <= b && b <= 0xBF
}

/// Decide whether `bytes` is well-formed UTF-8.
pub fn validate_utf8(bytes: &Vec<u8>) -> (r: bool)
    ensures
        r == is_valid_utf8(bytes@),
{
    let n: usize = bytes.len();
    let mut i: usize = 0;
    proof {
        assert(bytes@.skip(0) =~= bytes@);
    }
    while i < n
        invariant
            i <= n,
            n == bytes@.len(),
            is_valid_utf8(bytes@) == is_valid_utf8(bytes@.skip(i as int)),
        decreases n - i,
    {
        let ghost tail: Seq<u8> = bytes@.skip(i as int);
        let rem: usize = n - i;
        let b0: u8 = bytes[i];
        assert(tail[0] == b0);
        if b0 < 0x80 {
            proof {
                assert(tail.skip(1) =~= bytes@.skip(i as int + 1));
            }
            i = i + 1;
        } else if 0xC2 <= b0 && b0 <= 0xDF {
            if rem < 2 {
                return false;
            }
            if !is_continuation_byte(bytes[i + 1]) {
                return false;
            }
            proof {
                assert(tail.skip(2) =~= bytes@.skip(i as int + 2));
            }
            i = i + 2;
        } else if b0 == 0xE0 {
            if rem < 3 {
                return false;
            }
            let b1: u8 = bytes[i + 1];
            if !(0xA0 <= b1 && b1 <= 0xBF) {
                return false;
            }
            if !is_continuation_byte(bytes[i + 2]) {
                return false;
            }
            proof {
                assert(tail.skip(3) =~= bytes@.skip(i as int + 3));
            }
            i = i + 3;
        } else if (0xE1 <= b0 && b0 <= 0xEC) || b0 == 0xEE || b0 == 0xEF {
            if rem < 3 {
                return false;
            }
            if !is_continuation_byte(bytes[i + 1]) {
                return false;
            }
            if !is_continuation_byte(bytes[i + 2]) {
                return false;
            }
            proof {
                assert(tail.skip(3) =~= bytes@.skip(i as int + 3));
            }
            i = i + 3;
        } else if b0 == 0xED {
            if rem < 3 {
                return false;
            }
            let b1: u8 = bytes[i + 1];
            if !(0x80 <= b1 && b1 <= 0x9F) {
                return false;
            }
            if !is_continuation_byte(bytes[i + 2]) {
                return false;
            }
            proof {
                assert(tail.skip(3) =~= bytes@.skip(i as int + 3));
            }
            i = i + 3;
        } else if b0 == 0xF0 {
            if rem < 4 {
                return false;
            }
            let b1: u8 = bytes[i + 1];
            if !(0x90 <= b1 && b1 <= 0xBF) {
                return false;
            }
            if !is_continuation_byte(bytes[i + 2]) {
                return false;
            }
            if !is_continuation_byte(bytes[i + 3]) {
                return false;
            }
            proof {
                assert(tail.skip(4) =~= bytes@.skip(i as int + 4));
            }
            i = i + 4;
        } else if 0xF1 <= b0 && b0 <= 0xF3 {
            if rem < 4 {
                return false;
            }
            if !is_continuation_byte(bytes[i + 1]) {
                return false;
            }
            if !is_continuation_byte(bytes[i + 2]) {
                return false;
            }
            if !is_continuation_byte(bytes[i + 3]) {
                return false;
            }
            proof {
                assert(tail.skip(4) =~= bytes@.skip(i as int + 4));
            }
            i = i + 4;
        } else if b0 == 0xF4 {
            if rem < 4 {
                return false;
            }
            let b1: u8 = bytes[i + 1];
            if !(0x80 <= b1 && b1 <= 0x8F) {
                return false;
            }
            if !is_continuation_byte(bytes[i + 2]) {
                return false;
            }
            if !is_continuation_byte(bytes[i + 3]) {
                return false;
            }
            proof {
                assert(tail.skip(4) =~= bytes@.skip(i as int + 4));
            }
            i = i + 4;
        } else {
            return false;
        }
    }
    proof {
        assert(bytes@.skip(n as int) =~= Seq::<u8>::empty());
    }
    true
}

/// An owned, bounds-checked text: a byte buffer known to be well-formed
/// UTF-8. Raw spans coming over the boundary are wrapped into this type at
/// the edge; everything past the edge works on owned, validated text.
pub struct Utf8Text {
    bytes: Vec<u8>,
}

impl View for Utf8Text {
    type V = Seq<u8>;

    closed spec fn view(&self) -> Seq<u8> {
        self.bytes@
    }
}

impl Utf8Text {
    /// Every constructed text is well-formed UTF-8.
    pub open spec fn wf(self) -> bool {
        is_valid_utf8(self@)
    }

    /// Validate `bytes` and take ownership of it as text; reject exactly
    /// the byte buffers that are not well-formed UTF-8.
    pub fn from_bytes(bytes: Vec<u8>) -> (r: Result<Utf8Text, PluginError>)
        ensures
            is_valid_utf8(bytes@) ==> r is Ok && r->Ok_0@ == bytes@ && r->Ok_0.wf(),
            !is_valid_utf8(bytes@) ==> r == Err::<Utf8Text, PluginError>(PluginError::InvalidUtf8),
    {
        if validate_utf8(&bytes) {
            Ok(Utf8Text { bytes })
        } else {
            Err(PluginError::InvalidUtf8)
        }
    }

    /// The text as bytes.
    pub fn as_bytes(&self) -> (r: &Vec<u8>)
        ensures
            r@ == self@,
    {
        &self.bytes
    }

    /// Give the byte buffer back.
    pub fn into_bytes(self) -> (r: Vec<u8>)
        ensures
            r@ == self@,
    {
        self.bytes
    }

    /// The length of the text in bytes.
    pub fn len(&self) -> (n: usize)
        ensures
            n == self@.len(),
    {
        self.bytes.len()
    }
}

} // verus!
