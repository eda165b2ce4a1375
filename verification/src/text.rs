//! Text as it crosses the boundary: UTF-8 bytes closed by a single zero byte,
//! and the decimal form of a number.
use vstd::prelude::*;
use vstd::string::*;
use vstd::utf8::*;

verus! {

/// Whether no byte of a sequence is zero.
pub open spec fn nul_free(bytes: Seq<u8>) -> bool {
    forall|i: int| 0 <= i < bytes.len() ==> #[trigger] bytes[i] != 0u8
}

/// Whether no character of a text is the NUL character.
pub open spec fn has_no_nul(chars: Seq<char>) -> bool {
    forall|i: int| 0 <= i < chars.len() ==> #[trigger] chars[i] != '\0'
}

/// The stored form of a content: its bytes, then the terminator.
pub open spec fn terminated(content: Seq<u8>) -> Seq<u8> {
    content.push(0u8)
}

/// How many bytes stand before the first zero byte; all of them where there is none.
pub open spec fn text_len(stored: Seq<u8>) -> int
    decreases stored.len(),
{
    if stored.len() == 0 || stored[0] == 0u8 {
        0
    } else {
        1 + text_len(stored.drop_first())
    }
}

/// Whether a stored text is closed by a terminator.
pub open spec fn is_terminated(stored: Seq<u8>) -> bool {
    text_len(stored) < stored.len()
}

/// The content of a stored text: the bytes before its terminator.
pub open spec fn content_of(stored: Seq<u8>) -> Seq<u8> {
    stored.take(text_len(stored))
}

/// The character that stands for a digit.
pub open spec fn digit_char(d: int) -> char {
    if d == 0 {
        '0'
    } else if d == 1 {
        '1'
    } else if d == 2 {
        '2'
    } else if d == 3 {
        '3'
    } else if d == 4 {
        '4'
    } else if d == 5 {
        '5'
    } else if d == 6 {
        '6'
    } else if d == 7 {
        '7'
    } else if d == 8 {
        '8'
    } else {
        '9'
    }
}

/// The digits of a natural number, most significant first, with no leading zero.
pub open spec fn decimal_digits(n: nat) -> Seq<char>
    decreases n,
{
    if n < 10 {
        seq![digit_char(n as int)]
    } else {
        decimal_digits(n / 10).push(digit_char((n % 10) as int))
    }
}

/// The decimal form of an integer: a minus sign where it is negative, then its digits.
pub open spec fn decimal(i: int) -> Seq<char> {
    if i < 0 {
        seq!['-'] + decimal_digits((-i) as nat)
    } else {
        decimal_digits(i as nat)
    }
}

/// `text_len` is the one position before which no byte is zero and at which
/// the sequence ends or holds a zero.
pub proof fn lemma_text_len_is(stored: Seq<u8>, n: int)
    requires
        0 <= n <= stored.len(),
        forall|k: int| 0 <= k < n ==> stored[k] != 0u8,
        n == stored.len() || stored[n] == 0u8,
    ensures
        text_len(stored) == n,
    decreases n,
{
    if n > 0 {
        let rest = stored.drop_first();
        assert forall|k: int| 0 <= k < n - 1 implies rest[k] != 0u8 by {
            assert(rest[k] == stored[k + 1]);
        }
        lemma_text_len_is(rest, n - 1);
    }
}

/// The content of a stored text holds no zero byte and ends where the text's
/// first zero byte stands.
pub proof fn lemma_text_len_bounds(stored: Seq<u8>)
    ensures
        0 <= text_len(stored) <= stored.len(),
        nul_free(content_of(stored)),
        is_terminated(stored) ==> stored[text_len(stored)] == 0u8,
    decreases stored.len(),
{
    if stored.len() == 0 || stored[0] == 0u8 {
    } else {
        let rest = stored.drop_first();
        lemma_text_len_bounds(rest);
        assert forall|i: int| 0 <= i < content_of(stored).len() implies #[trigger] content_of(
            stored,
        )[i] != 0u8 by {
            if i > 0 {
                assert(content_of(rest)[i - 1] == stored[i]);
            }
        }
    }
}

/// A content without a zero byte is read back whole from its stored form.
pub proof fn lemma_terminated_content(content: Seq<u8>)
    requires
        nul_free(content),
    ensures
        is_terminated(terminated(content)),
        text_len(terminated(content)) == content.len(),
        content_of(terminated(content)) == content,
{
    let stored = terminated(content);
    assert forall|k: int| 0 <= k < content.len() implies stored[k] != 0u8 by {
        assert(stored[k] == content[k]);
    }
    lemma_text_len_is(stored, content.len() as int);
    assert(stored.take(content.len() as int) =~= content);
}

proof fn lemma_scalar_bytes(c: u32)
    by (bit_vector)
    ensures
        0 < c <= 0x7F ==> (c & 0x7F) as u8 != 0u8,
        0xC0u8 | ((c >> 6) & 0x1F) as u8 != 0u8,
        0xE0u8 | ((c >> 12) & 0x0F) as u8 != 0u8,
        0xF0u8 | ((c >> 18) & 0x7) as u8 != 0u8,
        0x80u8 | (c & 0x3F) as u8 != 0u8,
        0x80u8 | ((c >> 6) & 0x3F) as u8 != 0u8,
        0x80u8 | ((c >> 12) & 0x3F) as u8 != 0u8,
{
}

/// The UTF-8 encoding of a text holds a zero byte exactly where the text
/// holds the NUL character: a text can be stored with a terminator if and only
/// if no character of it is NUL.
pub proof fn lemma_encoding_is_nul_free(chars: Seq<char>)
    ensures
        nul_free(encode_utf8(chars)) <==> has_no_nul(chars),
    decreases chars.len(),
{
    if chars.len() > 0 {
        let rest = chars.drop_first();
        lemma_encoding_is_nul_free(rest);
        let c = chars[0] as u32;
        let head = encode_scalar(c);
        let bytes = encode_utf8(chars);
        char_is_scalar(chars[0]);
        lemma_scalar_bytes(c);
        if c == 0 {
            char_u32_cast(chars[0], 0u32);
            char_u32_cast('\0', 0u32);
            assert(chars[0] == '\0');
            assert(bytes[0] == head[0]);
            assert((c & 0x7F) as u8 == 0u8) by (bit_vector)
                requires
                    c == 0,
            ;
            assert(bytes[0] == 0u8);
        } else {
            assert(chars[0] != '\0');
            assert(nul_free(head));
            if has_no_nul(chars) {
                assert forall|i: int| 0 <= i < rest.len() implies #[trigger] rest[i] != '\0' by {
                    assert(rest[i] == chars[i + 1]);
                }
                assert forall|i: int| 0 <= i < bytes.len() implies #[trigger] bytes[i] != 0u8 by {
                    if i < head.len() {
                        assert(bytes[i] == head[i]);
                    } else {
                        assert(bytes[i] == encode_utf8(rest)[i - head.len()]);
                    }
                }
            }
            if nul_free(bytes) {
                assert forall|i: int| 0 <= i < encode_utf8(rest).len() implies #[trigger] encode_utf8(
                    rest,
                )[i] != 0u8 by {
                    assert(encode_utf8(rest)[i] == bytes[i + head.len()]);
                }
                assert forall|i: int| 0 <= i < chars.len() implies #[trigger] chars[i] != '\0' by {
                    if i > 0 {
                        assert(chars[i] == rest[i - 1]);
                    }
                }
            }
        }
    }
}

/// The decimal form of an integer holds no NUL character.
pub proof fn lemma_decimal_has_no_nul(i: int)
    ensures
        has_no_nul(decimal(i)),
{
    if i < 0 {
        lemma_digits_have_no_nul((-i) as nat);
    } else {
        lemma_digits_have_no_nul(i as nat);
    }
}

proof fn lemma_digits_have_no_nul(n: nat)
    ensures
        has_no_nul(decimal_digits(n)),
    decreases n,
{
    if n >= 10 {
        lemma_digits_have_no_nul(n / 10);
    }
}

/// Whether no character of a text is NUL, so that it can be stored with a terminator.
pub fn is_nul_free(content: &str) -> (free: bool)
    ensures
        free == has_no_nul(content@),
{
    proof {
        lemma_encoding_is_nul_free(content@);
    }
    let bytes = content.as_bytes();
    let mut i: usize = 0;
    while i < bytes.len()
        invariant
            i <= bytes@.len(),
            bytes@ == encode_utf8(content@),
            forall|k: int| 0 <= k < i ==> #[trigger] bytes@[k] != 0u8,
        decreases bytes.len() - i,
    {
        if bytes[i] == 0 {
            proof {
                lemma_encoding_is_nul_free(content@);
                assert(encode_utf8(content@)[i as int] == 0u8);
            }
            return false;
        }
        i = i + 1;
    }
    true
}

/// The stored form of a text: its UTF-8 bytes, then the terminator.
pub fn encode_text(content: &str) -> (stored: Vec<u8>)
    ensures
        stored@ == terminated(content.spec_bytes()),
{
    let mut stored = content.as_bytes_vec();
    stored.push(0u8);
    stored
}

/// The length of the content of a stored text.
pub fn scan_len(stored: &[u8]) -> (len: usize)
    ensures
        len == text_len(stored@),
{
    let mut i: usize = 0;
    while i < stored.len() && stored[i] != 0
        invariant
            i <= stored@.len(),
            forall|k: int| 0 <= k < i ==> stored@[k] != 0u8,
        decreases stored.len() - i,
    {
        i = i + 1;
    }
    proof {
        lemma_text_len_is(stored@, i as int);
    }
    i
}

fn digit_str(d: u32) -> (s: &'static str)
    requires
        d < 10,
    ensures
        s@ == seq![digit_char(d as int)],
{
    proof {
        reveal_strlit("0");
        reveal_strlit("1");
        reveal_strlit("2");
        reveal_strlit("3");
        reveal_strlit("4");
        reveal_strlit("5");
        reveal_strlit("6");
        reveal_strlit("7");
        reveal_strlit("8");
        reveal_strlit("9");
    }
    let s = if d == 0 {
        "0"
    } else if d == 1 {
        "1"
    } else if d == 2 {
        "2"
    } else if d == 3 {
        "3"
    } else if d == 4 {
        "4"
    } else if d == 5 {
        "5"
    } else if d == 6 {
        "6"
    } else if d == 7 {
        "7"
    } else if d == 8 {
        "8"
    } else {
        "9"
    };
    assert(s@ =~= seq![digit_char(d as int)]);
    s
}

fn render_digits(n: u32) -> (s: String)
    ensures
        s@ == decimal_digits(n as nat),
    decreases n,
{
    if n < 10 {
        String::from_str(digit_str(n))
    } else {
        let front = render_digits(n / 10);
        let s = front.concat(digit_str(n % 10));
        assert(s@ =~= decimal_digits(n as nat));
        s
    }
}

/// Writes a number in decimal.
pub fn render_decimal(n: i32) -> (s: String)
    ensures
        s@ == decimal(n as int),
{
    if n < 0 {
        let magnitude: u32 = (-(n as i64)) as u32;
        proof {
            reveal_strlit("-");
        }
        let s = String::from_str("-").concat(render_digits(magnitude).as_str());
        assert(s@ =~= decimal(n as int));
        s
    } else {
        render_digits(n as u32)
    }
}

} // verus!
