//! The line that reports a captured host key:
//! `<base64 blob> <algorithm> <fingerprint>`.

use vstd::prelude::*;

verus! {

/// What base64's standard engine (standard alphabet, `=` padding, no line
/// breaks) makes of a byte sequence.
pub uninterp spec fn base64_of(b: Seq<u8>) -> Seq<char>;

/// A character of the standard base64 alphabet, or the padding `=`.
pub open spec fn is_base64_symbol(c: char) -> bool {
    ||| ('A' as u32) <= (c as u32) <= ('Z' as u32)
    ||| ('a' as u32) <= (c as u32) <= ('z' as u32)
    ||| ('0' as u32) <= (c as u32) <= ('9' as u32)
    ||| c == '+'
    ||| c == '/'
    ||| c == '='
}

/// Relies on base64's `Engine::encode` with the `STANDARD` engine: the
/// result depends on the bytes alone, and holds only alphabet symbols and
/// padding.
#[verifier::external_body]
fn encode_base64(b: &[u8]) -> (r: String)
    ensures
        r@ == base64_of(b@),
        forall|i: int| 0 <= i < r@.len() ==> is_base64_symbol(#[trigger] r@[i]),
{
    base64::Engine::encode(&base64::engine::general_purpose::STANDARD, b)
}

/// Relies on base64's `Engine::decode` with the `STANDARD` engine, which
/// requires canonical padding and rejects trailing bits: it succeeds exactly
/// on the encodings of byte sequences, and then gives back the bytes that
/// were encoded.
#[verifier::external_body]
fn decode_base64(s: &str) -> (r: Option<Vec<u8>>)
    ensures
        match r {
            Some(v) => forall|b: Seq<u8>| #[trigger] base64_of(b) == s@ <==> b == v@,
            None => forall|b: Seq<u8>| #[trigger] base64_of(b) != s@,
        },
{
    base64::Engine::decode(&base64::engine::general_purpose::STANDARD, s).ok()
}

/// The number of characters before the first space (the whole length
/// where there is none).
pub open spec fn field_end(s: Seq<char>) -> nat
    decreases s.len(),
{
    if s.len() == 0 {
        0
    } else if s[0] == ' ' {
        0
    } else {
        1 + field_end(s.drop_first())
    }
}

/// The first space-separated field of a line.
pub open spec fn first_field(s: Seq<char>) -> Seq<char> {
    s.subrange(0, field_end(s) as int)
}

/// The line that reports the host key `blob` of algorithm `algorithm`.
pub open spec fn host_key_line_spec(blob: Seq<u8>, algorithm: Seq<char>, fingerprint: Seq<char>) -> Seq<char> {
    base64_of(blob) + seq![' '] + algorithm + seq![' '] + fingerprint
}

proof fn lemma_field_end_bounded(s: Seq<char>)
    ensures
        field_end(s) <= s.len(),
    decreases s.len(),
{
    if s.len() > 0 && s[0] != ' ' {
        lemma_field_end_bounded(s.drop_first());
    }
}

/// A field without spaces, followed by a space, ends at that space.
proof fn lemma_field_end_of_prefix(a: Seq<char>, rest: Seq<char>)
    requires
        forall|i: int| 0 <= i < a.len() ==> #[trigger] a[i] != ' ',
    ensures
        field_end(a + seq![' '] + rest) == a.len(),
    decreases a.len(),
{
    let s = a + seq![' '] + rest;
    if a.len() == 0 {
        assert(s[0] == ' ');
    } else {
        let t = a.drop_first();
        assert forall|i: int| 0 <= i < t.len() implies #[trigger] t[i] != ' ' by {
            assert(t[i] == a[i + 1]);
        }
        lemma_field_end_of_prefix(t, rest);
        assert(s.drop_first() =~= t + seq![' '] + rest);
        assert(s[0] == a[0]);
    }
}

/// Renders the host key `blob` of algorithm `algorithm` with its
/// fingerprint; the first field of the line is the base64 encoding of
/// exactly `blob`.
pub fn host_key_line(blob: &[u8], algorithm: &str, fingerprint: &str) -> (r: String)
    ensures
        r@ == host_key_line_spec(blob@, algorithm@, fingerprint@),
        first_field(r@) == base64_of(blob@),
{
    let encoded = encode_base64(blob);
    let ghost e = encoded@;
    proof {
        reveal_strlit(" ");
        assert forall|i: int| 0 <= i < e.len() implies #[trigger] e[i] != ' ' by {
            assert(is_base64_symbol(e[i]));
        }
        lemma_field_end_of_prefix(e, algorithm@ + seq![' '] + fingerprint@);
    }
    let r = encoded.concat(" ").concat(algorithm).concat(" ").concat(fingerprint);
    assert(r@ =~= host_key_line_spec(blob@, algorithm@, fingerprint@));
    assert(r@ =~= e + seq![' '] + (algorithm@ + seq![' '] + fingerprint@));
    assert(first_field(r@) =~= e);
    r
}

/// The number of characters of `line` before its first space.
fn first_field_len(line: &str) -> (k: usize)
    ensures
        k == field_end(line@),
{
    let n = line.unicode_len();
    let mut i: usize = 0;
    proof {
        assert(line@.skip(0) =~= line@);
    }
    while i < n
        invariant
            n == line@.len(),
            i <= n,
            field_end(line@) == i + field_end(line@.skip(i as int)),
        decreases n - i,
    {
        let c = line.get_char(i);
        let ghost t = line@.skip(i as int);
        assert(t[0] == c);
        if c == ' ' {
            return i;
        }
        assert(t.drop_first() =~= line@.skip(i + 1));
        i = i + 1;
    }
    proof {
        assert(line@.skip(i as int).len() == 0);
    }
    i
}

/// The host-key blob that the first field of `line` encodes, or `None`
/// where that field is no base64 encoding.
pub fn blob_of_line(line: &str) -> (r: Option<Vec<u8>>)
    ensures
        forall|b: Seq<u8>| base64_of(b) == first_field(line@) ==> (r matches Some(v) && v@ == b),
        r matches Some(v) ==> base64_of(v@) == first_field(line@),
{
    let k = first_field_len(line);
    proof {
        lemma_field_end_bounded(line@);
    }
    let field = line.substring_char(0, k);
    decode_base64(field)
}

/// Two reports of the same key, algorithm and fingerprint are the same line.
pub proof fn same_key_same_line(b1: Seq<u8>, b2: Seq<u8>, algorithm: Seq<char>, fingerprint: Seq<char>)
    ensures
        b1 == b2 ==> host_key_line_spec(b1, algorithm, fingerprint) == host_key_line_spec(b2, algorithm, fingerprint),
{
}

} // verus!
