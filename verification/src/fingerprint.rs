//! The content fingerprint: the lower-case hexadecimal SHA-256 of a child's
//! canonical serialization.  The digest itself is computed by an outside
//! hash implementation; everything around it is verified.

use vstd::prelude::*;
use vstd::string::*;
use sha2::Digest;
use crate::child::{Child, ChildView};
use crate::codec::{hexdig, ser_child, serialize_child};

verus! {

/// The lower-case hexadecimal rendering of a byte string, two digits per
/// byte, most significant nibble first.
pub open spec fn hex_spec(b: Seq<u8>) -> Seq<char>
    decreases b.len(),
{
    if b.len() == 0 {
        Seq::empty()
    } else {
        seq![hexdig(b[0] as int / 16), hexdig(b[0] as int % 16)] + hex_spec(b.skip(1))
    }
}

/// Hexadecimal rendering distributes over concatenation.
pub proof fn lemma_hex_concat(a: Seq<u8>, b: Seq<u8>)
    ensures
        hex_spec(a + b) == hex_spec(a) + hex_spec(b),
    decreases a.len(),
{
    if a.len() == 0 {
        assert(a + b =~= b);
        assert(hex_spec(a) + hex_spec(b) =~= hex_spec(b));
    } else {
        assert((a + b).skip(1) =~= a.skip(1) + b);
        lemma_hex_concat(a.skip(1), b);
        assert((a + b)[0] == a[0]);
        assert(hex_spec(a + b) == seq![hexdig(a[0] as int / 16), hexdig(a[0] as int % 16)]
            + (hex_spec(a.skip(1)) + hex_spec(b)));
        assert(seq![hexdig(a[0] as int / 16), hexdig(a[0] as int % 16)] + (hex_spec(a.skip(1))
            + hex_spec(b)) =~= (seq![hexdig(a[0] as int / 16), hexdig(a[0] as int % 16)]
            + hex_spec(a.skip(1))) + hex_spec(b));
    }
}

/// Rendering one more byte appends its two digits.
proof fn lemma_hex_snoc(b: Seq<u8>, i: int)
    requires
        0 <= i < b.len(),
    ensures
        hex_spec(b.subrange(0, i + 1)) == hex_spec(b.subrange(0, i)) + seq![
            hexdig(b[i] as int / 16),
            hexdig(b[i] as int % 16),
        ],
{
    let a = b.subrange(0, i);
    let u = b.subrange(i, i + 1);
    assert(b.subrange(0, i + 1) =~= a + u);
    lemma_hex_concat(a, u);
    assert(u.len() == 1);
    assert(u[0] == b[i]);
    assert(u.skip(1) =~= Seq::<u8>::empty());
    assert(hex_spec(u.skip(1)) == Seq::<char>::empty());
    assert(hex_spec(u) == seq![hexdig(u[0] as int / 16), hexdig(u[0] as int % 16)] + hex_spec(
        u.skip(1),
    ));
    assert(seq![hexdig(b[i] as int / 16), hexdig(b[i] as int % 16)] + Seq::<char>::empty() =~= seq![
        hexdig(b[i] as int / 16),
        hexdig(b[i] as int % 16),
    ]);
}

/// The one-character string for a lower-case hexadecimal digit.
fn nibble_str(n: u8) -> (r: &'static str)
    requires
        n < 16,
    ensures
        r@ == seq![hexdig(n as int)],
{
    proof {
        reveal_strlit("0");
        reveal_strlit("1");
        reveal_strlit("2");
        reveal_strlit("3");
        reveal_strlit("4");
        reveal_strlit("5");
        reveal_strlit("6");
        reveal_strlit("7");
        reveal_strlit("8");
        reveal_strlit("9");
        reveal_strlit("a");
        reveal_strlit("b");
        reveal_strlit("c");
        reveal_strlit("d");
        reveal_strlit("e");
        reveal_strlit("f");
    }
    let r: &'static str = if n == 0 {
        "0"
    } else if n == 1 {
        "1"
    } else if n == 2 {
        "2"
    } else if n == 3 {
        "3"
    } else if n == 4 {
        "4"
    } else if n == 5 {
        "5"
    } else if n == 6 {
        "6"
    } else if n == 7 {
        "7"
    } else if n == 8 {
        "8"
    } else if n == 9 {
        "9"
    } else if n == 10 {
        "a"
    } else if n == 11 {
        "b"
    } else if n == 12 {
        "c"
    } else if n == 13 {
        "d"
    } else if n == 14 {
        "e"
    } else {
        "f"
    };
    proof {
        assert(r@ =~= seq![hexdig(n as int)]);
    }
    r
}

/// Renders a byte string in lower-case hexadecimal.
pub fn hex_lower(bytes: &Vec<u8>) -> (r: String)
    ensures
        r@ == hex_spec(bytes@),
{
    let mut out = String::new();
    let mut i: usize = 0;
    while i < bytes.len()
        invariant
            i <= bytes@.len(),
            out@ == hex_spec(bytes@.subrange(0, i as int)),
        decreases bytes@.len() - i,
    {
        let b = bytes[i];
        out.append(nibble_str(b / 16));
        out.append(nibble_str(b % 16));
        proof {
            lemma_hex_snoc(bytes@, i as int);
            assert(out@ =~= hex_spec(bytes@.subrange(0, i + 1)));
        }
        i += 1;
    }
    proof {
        assert(bytes@.subrange(0, bytes@.len() as int) =~= bytes@);
    }
    out
}

/// The annotation key the fingerprint is stored under on every reconciled
/// object.
pub open spec fn spec_fingerprint_annotation() -> Seq<char> {
    "ml.jedimindtricks.example/desired-fingerprint"@
}

/// The annotation key the fingerprint is stored under.
pub fn fingerprint_annotation() -> (r: &'static str)
    ensures
        r@ == spec_fingerprint_annotation(),
{
    "ml.jedimindtricks.example/desired-fingerprint"
}

/// The SHA-256 digest of a character string, hashed as UTF-8.  The digest is
/// a function of its input alone; nothing further is assumed of it.
pub uninterp spec fn sha256_of(s: Seq<char>) -> Seq<u8>;

/// Relies on sha2::Sha256::digest: the 32-byte SHA-256 digest of the input,
/// a deterministic function of the bytes alone.
#[verifier::external_body]
fn sha256_digest(chars: &Vec<char>) -> (r: Vec<u8>)
    ensures
        r@ == sha256_of(chars@),
        r@.len() == 32,
{
    let s: String = chars.iter().collect();
    sha2::Sha256::digest(s.as_bytes()).to_vec()
}

/// The fingerprint of a desired child: the lower-case hexadecimal SHA-256
/// of its canonical serialization.
pub open spec fn fp_spec(c: ChildView) -> Seq<char> {
    hex_spec(sha256_of(ser_child(c)))
}

/// Computes the fingerprint of a desired child.
pub fn fingerprint(c: &Child) -> (r: String)
    ensures
        r@ == fp_spec(c@),
{
    let js = serialize_child(c);
    let digest = sha256_digest(&js);
    hex_lower(&digest)
}

/// The fingerprint is stable: it depends only on the child's content, so
/// equal children give equal fingerprints, across invocations.
pub proof fn lemma_fingerprint_stable(c1: ChildView, c2: ChildView)
    requires
        c1 == c2,
    ensures
        fp_spec(c1) == fp_spec(c2),
{
}

/// Serialize-then-hash is stable: the digest depends only on the child's
/// content, so equal children hash equally, in any two processes.
pub proof fn lemma_serialize_then_hash_stable(c1: ChildView, c2: ChildView)
    requires
        c1 == c2,
    ensures
        sha256_of(ser_child(c1)) == sha256_of(ser_child(c2)),
{
}

} // verus!
