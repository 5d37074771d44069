//! A specification-level parser for the canonical serialization: the exact
//! inverse of the emitters in `codec`.  Its round-trip law — parsing a
//! serialized child yields the child back — is what makes the fingerprint a
//! faithful stand-in for the desired content.

use vstd::prelude::*;
use crate::codec::{
    digit, hexdig, dec_digits, dec_int, esc_char, escape, jstr, jbool, ser_labels, ser_owner,
    ser_meta, ser_service, ser_workload, ser_mirror, ser_ingress, ser_child,
};
use crate::child::{
    LabelsView, OwnerRefView, ChildMetaView, ServiceChildView, WorkloadChildView,
    MirrorRouteChildView, IngressRouteChildView, ChildView,
};

verus! {

/// Strips an expected literal prefix, or fails.
pub open spec fn p_lit(s: Seq<char>, lit: Seq<char>) -> Option<Seq<char>> {
    if s.len() >= lit.len() && s.subrange(0, lit.len() as int) == lit {
        Option::Some(s.skip(lit.len() as int))
    } else {
        Option::None
    }
}

/// Stripping a literal off a text that starts with it leaves the rest.
pub proof fn lemma_p_lit(lit: Seq<char>, rest: Seq<char>)
    ensures
        p_lit(lit + rest, lit) == Option::Some(rest),
{
    let s = lit + rest;
    assert(s.subrange(0, lit.len() as int) =~= lit);
    assert(s.skip(lit.len() as int) =~= rest);
}

/// A text that differs from the literal within the literal's length fails.
pub proof fn lemma_p_lit_mismatch(s: Seq<char>, lit: Seq<char>, k: int)
    requires
        0 <= k < lit.len(),
        k < s.len() ==> s[k] != lit[k],
    ensures
        p_lit(s, lit) is None,
{
    if s.len() >= lit.len() {
        if s.subrange(0, lit.len() as int) == lit {
            assert(s.subrange(0, lit.len() as int)[k] == s[k]);
        }
    }
}

/// Concatenation is associative.
proof fn seq_assoc(a: Seq<char>, b: Seq<char>, c: Seq<char>)
    ensures
        (a + b) + c == a + (b + c),
{
    assert((a + b) + c =~= a + (b + c));
}

/// The value of a decimal digit character; meaningful only for digits.
pub open spec fn digval(c: char) -> int {
    c as int - 48
}

pub open spec fn is_digit(c: char) -> bool {
    48 <= c as int <= 57
}

/// The value of a lower-case hexadecimal digit character.
pub open spec fn hexval(c: char) -> int {
    if is_digit(c) {
        digval(c)
    } else {
        c as int - 87
    }
}

pub open spec fn is_hexdig(c: char) -> bool {
    is_digit(c) || 97 <= c as int <= 102
}

/// The scalar value of a character.
pub open spec fn code_of(c: char) -> int {
    (c as u32) as int
}

/// The character with the given scalar value.
pub open spec fn char_of(n: int) -> char {
    choose|c: char| code_of(c) == n
}

/// A character is recovered from its scalar value.
pub proof fn lemma_char_of(c: char)
    ensures
        char_of(code_of(c)) == c,
{
    let n = code_of(c);
    assert(code_of(char_of(n)) == n);
}

/// Greedily consumes decimal digits, accumulating their value.
pub open spec fn p_digits(s: Seq<char>, acc: nat) -> (nat, Seq<char>)
    decreases s.len(),
{
    if s.len() > 0 && is_digit(s[0]) {
        p_digits(s.skip(1), acc * 10 + digval(s[0]) as nat)
    } else {
        (acc, s)
    }
}

/// Parses an optionally-signed decimal integer.
pub open spec fn p_int(s: Seq<char>) -> Option<(int, Seq<char>)> {
    if s.len() > 0 && s[0] == '-' {
        if s.len() > 1 && is_digit(s[1]) {
            let (n, r) = p_digits(s.skip(1), 0);
            Option::Some((-(n as int), r))
        } else {
            Option::None
        }
    } else if s.len() > 0 && is_digit(s[0]) {
        let (n, r) = p_digits(s, 0);
        Option::Some((n as int, r))
    } else {
        Option::None
    }
}

/// Ten to the given power.
pub open spec fn pow10(k: nat) -> nat
    decreases k,
{
    if k == 0 {
        1
    } else {
        10 * pow10((k - 1) as nat)
    }
}

/// Every character of a decimal representation is a digit, and its value is
/// recovered digit by digit.
proof fn lemma_dec_digits_are_digits(n: nat)
    ensures
        forall|i: int| 0 <= i < dec_digits(n).len() ==> is_digit(#[trigger] dec_digits(n)[i]),
        dec_digits(n).len() >= 1,
    decreases n,
{
    if n < 10 {
        assert(is_digit(digit(n as int)));
    } else {
        lemma_dec_digits_are_digits(n / 10);
        let d = dec_digits(n);
        let pre = dec_digits(n / 10);
        assert forall|i: int| 0 <= i < d.len() implies is_digit(d[i]) by {
            if i < pre.len() {
                assert(d[i] == pre[i]);
            } else {
                assert(d[i] == digit((n % 10) as int));
                assert(is_digit(digit((n % 10) as int)));
            }
        }
    }
}

/// Consuming a decimal representation multiplies the accumulator by the
/// corresponding power of ten and adds the value.
proof fn lemma_p_digits_rep(n: nat, rest: Seq<char>, acc: nat)
    ensures
        p_digits(dec_digits(n) + rest, acc) == p_digits(
            rest,
            acc * pow10(dec_digits(n).len() as nat) + n,
        ),
    decreases n,
{
    lemma_dec_digits_are_digits(n);
    if n < 10 {
        let s = dec_digits(n) + rest;
        assert(s[0] == digit(n as int));
        assert(is_digit(digit(n as int)));
        assert(digval(digit(n as int)) == n as int);
        assert(s.skip(1) =~= rest);
        assert(pow10(0) == 1);
        assert(pow10(1) == 10);
        assert(p_digits(s, acc) == p_digits(rest, acc * 10 + n));
    } else {
        let pre = dec_digits(n / 10);
        let d = digit((n % 10) as int);
        assert(dec_digits(n) + rest =~= pre + (seq![d] + rest));
        lemma_p_digits_rep(n / 10, seq![d] + rest, acc);
        let p1 = pow10(pre.len() as nat);
        let acc1 = acc * p1 + n / 10;
        assert(p_digits(dec_digits(n) + rest, acc) == p_digits(seq![d] + rest, acc1));
        assert((seq![d] + rest)[0] == d);
        assert(is_digit(d));
        assert(digval(d) == n % 10);
        assert((seq![d] + rest).skip(1) =~= rest);
        assert(p_digits(seq![d] + rest, acc1) == p_digits(rest, acc1 * 10 + (n % 10) as nat));
        assert(pow10(dec_digits(n).len() as nat) == 10 * p1) by {
            assert(dec_digits(n).len() == pre.len() + 1);
        }
        assert(acc1 * 10 + (n % 10) as nat == acc * (10 * p1) + n) by (nonlinear_arith)
            requires
                acc1 == acc * p1 + n / 10,
                n >= 10,
                n / 10 * 10 + n % 10 == n,
        {
        }
    }
}

/// Parsing the decimal representation of an integer yields it back, when no
/// digit follows it.
pub proof fn lemma_p_int(n: int, rest: Seq<char>)
    requires
        rest.len() == 0 || !is_digit(rest[0]),
    ensures
        p_int(dec_int(n) + rest) == Option::Some((n, rest)),
{
    if n >= 0 {
        let m = n as nat;
        lemma_dec_digits_are_digits(m);
        let s = dec_digits(m) + rest;
        assert(s[0] == dec_digits(m)[0]);
        assert(is_digit(s[0]));
        assert(s[0] != '-') by {
            assert(is_digit(s[0]));
        }
        lemma_p_digits_rep(m, rest, 0);
        assert(p_digits(rest, 0 * pow10(dec_digits(m).len() as nat) + m) == p_digits(rest, m));
        assert(p_digits(rest, m) == (m, rest));
        assert(dec_int(n) + rest =~= s);
    } else {
        let m = (-n) as nat;
        lemma_dec_digits_are_digits(m);
        let s = dec_int(n) + rest;
        assert(dec_int(n) =~= seq!['-'] + dec_digits(m));
        assert(s =~= seq!['-'] + (dec_digits(m) + rest));
        assert(s[0] == '-');
        assert(!is_digit('-'));
        assert(s[1] == dec_digits(m)[0]);
        assert(is_digit(s[1]));
        assert(s.skip(1) =~= dec_digits(m) + rest);
        lemma_p_digits_rep(m, rest, 0);
        assert(p_digits(rest, m) == (m, rest));
    }
}

/// Parses a canonical JSON string body after the opening quote: characters
/// up to the closing quote, undoing the three escape forms.
pub open spec fn p_str_body(s: Seq<char>) -> Option<(Seq<char>, Seq<char>)>
    decreases s.len(),
{
    if s.len() == 0 {
        Option::None
    } else if s[0] == '"' {
        Option::Some((Seq::empty(), s.skip(1)))
    } else if s[0] == '\\' {
        if s.len() >= 2 && (s[1] == '"' || s[1] == '\\') {
            match p_str_body(s.skip(2)) {
                Option::Some((t, r)) => Option::Some((seq![s[1]] + t, r)),
                Option::None => Option::None,
            }
        } else if s.len() >= 6 && s[1] == 'u' && s[2] == '0' && s[3] == '0' && is_hexdig(s[4])
            && is_hexdig(s[5]) {
            match p_str_body(s.skip(6)) {
                Option::Some((t, r)) => Option::Some(
                    (seq![char_of(hexval(s[4]) * 16 + hexval(s[5]))] + t, r),
                ),
                Option::None => Option::None,
            }
        } else {
            Option::None
        }
    } else {
        match p_str_body(s.skip(1)) {
            Option::Some((t, r)) => Option::Some((seq![s[0]] + t, r)),
            Option::None => Option::None,
        }
    }
}

/// Parses a canonical JSON string, quotes included.
pub open spec fn p_str(s: Seq<char>) -> Option<(Seq<char>, Seq<char>)> {
    if s.len() > 0 && s[0] == '"' {
        p_str_body(s.skip(1))
    } else {
        Option::None
    }
}

/// Each hexadecimal digit's value is recovered.
proof fn lemma_hexval_hexdig(k: int)
    requires
        0 <= k < 16,
    ensures
        is_hexdig(hexdig(k)),
        hexval(hexdig(k)) == k,
{
}

/// Parsing an escaped body followed by a closing quote yields the original
/// characters.
proof fn lemma_p_str_body(t: Seq<char>, rest: Seq<char>)
    ensures
        p_str_body(escape(t) + seq!['"'] + rest) == Option::Some((t, rest)),
    decreases t.len(),
{
    let s = escape(t) + seq!['"'] + rest;
    if t.len() == 0 {
        assert(escape(t) =~= Seq::<char>::empty());
        assert(s =~= seq!['"'] + rest);
        assert(s[0] == '"');
        assert(s.skip(1) =~= rest);
    } else {
        let c = t[0];
        let t1 = t.skip(1);
        lemma_p_str_body(t1, rest);
        let s1 = escape(t1) + seq!['"'] + rest;
        assert(escape(t) == esc_char(c) + escape(t1));
        if c == '"' {
            assert(s =~= seq!['\\', '"'] + s1);
            assert(s[0] == '\\' && s[1] == '"');
            assert(s.skip(2) =~= s1);
            assert(p_str_body(s) == Option::Some((seq![c] + t1, rest)));
            assert(seq![c] + t1 =~= t);
        } else if c == '\\' {
            assert(s =~= seq!['\\', '\\'] + s1);
            assert(s[0] == '\\' && s[1] == '\\');
            assert(s.skip(2) =~= s1);
            assert(p_str_body(s) == Option::Some((seq![c] + t1, rest)));
            assert(seq![c] + t1 =~= t);
        } else if (c as u32) < 32 {
            let code = (c as u32) as int;
            let h1 = hexdig(code / 16);
            let h2 = hexdig(code % 16);
            assert(s =~= seq!['\\', 'u', '0', '0', h1, h2] + s1);
            lemma_hexval_hexdig(code / 16);
            lemma_hexval_hexdig(code % 16);
            assert(s[0] == '\\' && s[1] == 'u' && s[2] == '0' && s[3] == '0');
            assert(s[4] == h1 && s[5] == h2);
            assert(h1 != '"' && h1 != '\\') by {
                assert(is_hexdig(h1));
            }
            assert(s.skip(6) =~= s1);
            vstd::arithmetic::div_mod::lemma_fundamental_div_mod(code, 16);
            assert(hexval(h1) * 16 + hexval(h2) == code);
            assert(char_of(code) == c) by {
                assert(code_of(c) == code);
                lemma_char_of(c);
            }
            assert(p_str_body(s) == Option::Some((seq![c] + t1, rest)));
            assert(seq![c] + t1 =~= t);
        } else {
            assert(s =~= seq![c] + s1);
            assert(s[0] == c);
            assert(c != '"' && c != '\\');
            assert(s.skip(1) =~= s1);
            assert(p_str_body(s) == Option::Some((seq![c] + t1, rest)));
            assert(seq![c] + t1 =~= t);
        }
    }
}

/// Parsing a canonical JSON string yields the original characters.
pub proof fn lemma_p_str(t: Seq<char>, rest: Seq<char>)
    ensures
        p_str(jstr(t) + rest) == Option::Some((t, rest)),
{
    let s = jstr(t) + rest;
    assert(s =~= seq!['"'] + (escape(t) + seq!['"'] + rest));
    assert(s[0] == '"');
    assert(s.skip(1) =~= escape(t) + seq!['"'] + rest);
    lemma_p_str_body(t, rest);
}

/// Parses a canonical JSON boolean.
pub open spec fn p_bool(s: Seq<char>) -> Option<(bool, Seq<char>)> {
    match p_lit(s, "true"@) {
        Option::Some(r) => Option::Some((true, r)),
        Option::None => match p_lit(s, "false"@) {
            Option::Some(r) => Option::Some((false, r)),
            Option::None => Option::None,
        },
    }
}

/// Parsing a canonical JSON boolean yields it back.
pub proof fn lemma_p_bool(b: bool, rest: Seq<char>)
    ensures
        p_bool(jbool(b) + rest) == Option::Some((b, rest)),
{
    reveal_strlit("true");
    reveal_strlit("false");
    if b {
        lemma_p_lit("true"@, rest);
    } else {
        let s = "false"@ + rest;
        assert(s[0] == 'f');
        lemma_p_lit_mismatch(s, "true"@, 0);
        lemma_p_lit("false"@, rest);
    }
}

/// Parses a canonical label pair.
pub open spec fn p_labels(s: Seq<char>) -> Option<(LabelsView, Seq<char>)> {
    match p_lit(s, "{\"app\":"@) {
        Option::None => Option::None,
        Option::Some(s1) => match p_str(s1) {
            Option::None => Option::None,
            Option::Some((app, s2)) => match p_lit(s2, ",\"role\":"@) {
                Option::None => Option::None,
                Option::Some(s3) => match p_str(s3) {
                    Option::None => Option::None,
                    Option::Some((role, s4)) => match p_lit(s4, "}"@) {
                        Option::None => Option::None,
                        Option::Some(s5) => Option::Some(
                            (LabelsView { app: app, role: role }, s5),
                        ),
                    },
                },
            },
        },
    }
}

/// Parsing a serialized label pair yields it back.
pub proof fn lemma_p_labels(l: LabelsView, rest: Seq<char>)
    ensures
        p_labels(ser_labels(l) + rest) == Option::Some((l, rest)),
{
    let s = ser_labels(l) + rest;
    let r1 = jstr(l.app) + (",\"role\":"@ + (jstr(l.role) + ("}"@ + rest)));
    assert(s =~= "{\"app\":"@ + r1);
    lemma_p_lit("{\"app\":"@, r1);
    lemma_p_str(l.app, ",\"role\":"@ + (jstr(l.role) + ("}"@ + rest)));
    lemma_p_lit(",\"role\":"@, jstr(l.role) + ("}"@ + rest));
    lemma_p_str(l.role, "}"@ + rest);
    lemma_p_lit("}"@, rest);
}

/// Parses a canonical owner-reference list.
pub open spec fn p_owner(s: Seq<char>) -> Option<(OwnerRefView, Seq<char>)> {
    match p_lit(s, "[{\"apiVersion\":"@) {
        Option::None => Option::None,
        Option::Some(s1) => match p_str(s1) {
            Option::None => Option::None,
            Option::Some((api, s2)) => match p_lit(s2, ",\"blockOwnerDeletion\":"@) {
                Option::None => Option::None,
                Option::Some(s3) => match p_bool(s3) {
                    Option::None => Option::None,
                    Option::Some((bod, s4)) => match p_lit(s4, ",\"controller\":"@) {
                        Option::None => Option::None,
                        Option::Some(s5) => match p_bool(s5) {
                            Option::None => Option::None,
                            Option::Some((ctl, s6)) => match p_lit(s6, ",\"kind\":"@) {
                                Option::None => Option::None,
                                Option::Some(s7) => match p_str(s7) {
                                    Option::None => Option::None,
                                    Option::Some((kind, s8)) => match p_lit(s8, ",\"name\":"@) {
                                        Option::None => Option::None,
                                        Option::Some(s9) => match p_str(s9) {
                                            Option::None => Option::None,
                                            Option::Some((name, s10)) => match p_lit(
                                                s10,
                                                ",\"uid\":"@,
                                            ) {
                                                Option::None => Option::None,
                                                Option::Some(s11) => match p_str(s11) {
                                                    Option::None => Option::None,
                                                    Option::Some((uid, s12)) => match p_lit(
                                                        s12,
                                                        "}]"@,
                                                    ) {
                                                        Option::None => Option::None,
                                                        Option::Some(s13) => Option::Some(
                                                            (
                                                                OwnerRefView {
                                                                    api_version: api,
                                                                    block_owner_deletion: bod,
                                                                    controller: ctl,
                                                                    kind: kind,
                                                                    name: name,
                                                                    uid: uid,
                                                                },
                                                                s13,
                                                            ),
                                                        ),
                                                    },
                                                },
                                            },
                                        },
                                    },
                                },
                            },
                        },
                    },
                },
            },
        },
    }
}

/// Parsing a serialized owner-reference list yields it back.
#[verifier::rlimit(100)]
pub proof fn lemma_p_owner(o: OwnerRefView, rest: Seq<char>)
    ensures
        p_owner(ser_owner(o) + rest) == Option::Some((o, rest)),
{
    let s = ser_owner(o) + rest;
    let t12 = "}]"@ + rest;
    let t11 = jstr(o.uid) + t12;
    let t10 = ",\"uid\":"@ + t11;
    let t9 = jstr(o.name) + t10;
    let t8 = ",\"name\":"@ + t9;
    let t7 = jstr(o.kind) + t8;
    let t6 = ",\"kind\":"@ + t7;
    let t5 = jbool(o.controller) + t6;
    let t4 = ",\"controller\":"@ + t5;
    let t3 = jbool(o.block_owner_deletion) + t4;
    let t2 = ",\"blockOwnerDeletion\":"@ + t3;
    let t1 = jstr(o.api_version) + t2;
    assert(s =~= "[{\"apiVersion\":"@ + t1);
    lemma_p_lit("[{\"apiVersion\":"@, t1);
    lemma_p_str(o.api_version, t2);
    lemma_p_lit(",\"blockOwnerDeletion\":"@, t3);
    lemma_p_bool(o.block_owner_deletion, t4);
    lemma_p_lit(",\"controller\":"@, t5);
    lemma_p_bool(o.controller, t6);
    lemma_p_lit(",\"kind\":"@, t7);
    lemma_p_str(o.kind, t8);
    lemma_p_lit(",\"name\":"@, t9);
    lemma_p_str(o.name, t10);
    lemma_p_lit(",\"uid\":"@, t11);
    lemma_p_str(o.uid, t12);
    lemma_p_lit("}]"@, rest);
}

/// Parses the optional labels block of a child's metadata.
pub open spec fn p_meta_labels(s: Seq<char>) -> Option<(Option<LabelsView>, Seq<char>)> {
    match p_lit(s, "\"labels\":"@) {
        Option::None => Option::Some((Option::None, s)),
        Option::Some(s1) => match p_labels(s1) {
            Option::None => Option::None,
            Option::Some((l, s2)) => match p_lit(s2, ","@) {
                Option::None => Option::None,
                Option::Some(s3) => Option::Some((Option::Some(l), s3)),
            },
        },
    }
}

/// Parses the optional namespace field of a child's metadata.
pub open spec fn p_meta_ns(s: Seq<char>) -> Option<(Option<Seq<char>>, Seq<char>)> {
    match p_lit(s, ",\"namespace\":"@) {
        Option::None => Option::Some((Option::None, s)),
        Option::Some(s1) => match p_str(s1) {
            Option::None => Option::None,
            Option::Some((ns, s2)) => Option::Some((Option::Some(ns), s2)),
        },
    }
}

/// Parses a child's canonical metadata.
pub open spec fn p_meta(s: Seq<char>) -> Option<(ChildMetaView, Seq<char>)> {
    match p_lit(s, "{"@) {
        Option::None => Option::None,
        Option::Some(s1) => match p_meta_labels(s1) {
            Option::None => Option::None,
            Option::Some((labels, s2)) => match p_lit(s2, "\"name\":"@) {
                Option::None => Option::None,
                Option::Some(s3) => match p_str(s3) {
                    Option::None => Option::None,
                    Option::Some((name, s4)) => match p_meta_ns(s4) {
                        Option::None => Option::None,
                        Option::Some((ns, s5)) => match p_lit(s5, ",\"ownerReferences\":"@) {
                            Option::None => Option::None,
                            Option::Some(s6) => match p_owner(s6) {
                                Option::None => Option::None,
                                Option::Some((o, s7)) => match p_lit(s7, "}"@) {
                                    Option::None => Option::None,
                                    Option::Some(s8) => Option::Some(
                                        (
                                            ChildMetaView {
                                                name: name,
                                                namespace: ns,
                                                labels: labels,
                                                owner: o,
                                            },
                                            s8,
                                        ),
                                    ),
                                },
                            },
                        },
                    },
                },
            },
        },
    }
}

/// Parsing serialized metadata yields it back.
#[verifier::rlimit(100)]
pub proof fn lemma_p_meta(m: ChildMetaView, rest: Seq<char>)
    ensures
        p_meta(ser_meta(m) + rest) == Option::Some((m, rest)),
{
    reveal_strlit("\"labels\":");
    reveal_strlit("\"name\":");
    reveal_strlit(",\"namespace\":");
    reveal_strlit(",\"ownerReferences\":");
    let s = ser_meta(m) + rest;
    let t7 = "}"@ + rest;
    let t6 = ser_owner(m.owner) + t7;
    let t5 = ",\"ownerReferences\":"@ + t6;
    let t4 = match m.namespace {
        Option::Some(ns) => ",\"namespace\":"@ + (jstr(ns) + t5),
        Option::None => t5,
    };
    let t3 = jstr(m.name) + t4;
    let t2 = "\"name\":"@ + t3;
    let t1 = match m.labels {
        Option::Some(l) => "\"labels\":"@ + (ser_labels(l) + (","@ + t2)),
        Option::None => t2,
    };
    assert(s =~= "{"@ + t1);
    lemma_p_lit("{"@, t1);
    match m.labels {
        Option::Some(l) => {
            lemma_p_lit("\"labels\":"@, ser_labels(l) + (","@ + t2));
            lemma_p_labels(l, ","@ + t2);
            lemma_p_lit(","@, t2);
            assert(p_meta_labels(t1) == Option::Some((m.labels, t2)));
        },
        Option::None => {
            assert(t1[1] == 'n');
            lemma_p_lit_mismatch(t1, "\"labels\":"@, 1);
            assert(p_meta_labels(t1) == Option::Some((m.labels, t2)));
        },
    }
    lemma_p_lit("\"name\":"@, t3);
    lemma_p_str(m.name, t4);
    match m.namespace {
        Option::Some(ns) => {
            lemma_p_lit(",\"namespace\":"@, jstr(ns) + t5);
            lemma_p_str(ns, t5);
            assert(p_meta_ns(t4) == Option::Some((m.namespace, t5)));
        },
        Option::None => {
            assert(t4[2] == 'o');
            lemma_p_lit_mismatch(t4, ",\"namespace\":"@, 2);
            assert(p_meta_ns(t4) == Option::Some((m.namespace, t5)));
        },
    }
    lemma_p_lit(",\"ownerReferences\":"@, t6);
    lemma_p_owner(m.owner, t7);
    lemma_p_lit("}"@, rest);
}


/// Parses a canonical desired service.
pub open spec fn p_service(s: Seq<char>) -> Option<(ServiceChildView, Seq<char>)> {
    match p_lit(s, "{\"apiVersion\":\"v1\",\"kind\":\"Service\",\"metadata\":"@) {
        Option::None => Option::None,
        Option::Some(s1) => match p_meta(s1) {
            Option::None => Option::None,
            Option::Some((meta, s2)) => match p_lit(s2, ",\"spec\":{\"ports\":[{\"port\":"@) {
                Option::None => Option::None,
                Option::Some(s3) => match p_int(s3) {
                    Option::None => Option::None,
                    Option::Some((port, s4)) => match p_lit(s4, ",\"targetPort\":"@) {
                        Option::None => Option::None,
                        Option::Some(s5) => match p_int(s5) {
                            Option::None => Option::None,
                            Option::Some((tp, s6)) => match p_lit(s6, "}],\"selector\":"@) {
                                Option::None => Option::None,
                                Option::Some(s7) => match p_labels(s7) {
                                    Option::None => Option::None,
                                    Option::Some((sel, s8)) => match p_lit(s8, "}}"@) {
                                        Option::None => Option::None,
                                        Option::Some(s9) => Option::Some(
                                            (
                                                ServiceChildView {
                                                    meta: meta,
                                                    selector: sel,
                                                    port: port,
                                                    target_port: tp,
                                                },
                                                s9,
                                            ),
                                        ),
                                    },
                                },
                            },
                        },
                    },
                },
            },
        },
    }
}

/// Parsing a serialized service yields it back.
proof fn lemma_p_service(v: ServiceChildView, rest: Seq<char>)
    ensures
        p_service(ser_service(v) + rest) == Option::Some((v, rest)),
{
    reveal_strlit(",\"targetPort\":");
    reveal_strlit("}],\"selector\":");
    let s = ser_service(v) + rest;
    let t8 = "}}"@ + rest;
    let t7 = ser_labels(v.selector) + t8;
    let t6 = "}],\"selector\":"@ + t7;
    let t5 = dec_int(v.target_port) + t6;
    let t4 = ",\"targetPort\":"@ + t5;
    let t3 = dec_int(v.port) + t4;
    let t2 = ",\"spec\":{\"ports\":[{\"port\":"@ + t3;
    let t1 = ser_meta(v.meta) + t2;
    assert(s =~= "{\"apiVersion\":\"v1\",\"kind\":\"Service\",\"metadata\":"@ + t1);
    lemma_p_lit("{\"apiVersion\":\"v1\",\"kind\":\"Service\",\"metadata\":"@, t1);
    lemma_p_meta(v.meta, t2);
    lemma_p_lit(",\"spec\":{\"ports\":[{\"port\":"@, t3);
    assert(t4[0] == ',' && !is_digit(','));
    lemma_p_int(v.port, t4);
    lemma_p_lit(",\"targetPort\":"@, t5);
    assert(t6[0] == '}' && !is_digit('}'));
    lemma_p_int(v.target_port, t6);
    lemma_p_lit("}],\"selector\":"@, t7);
    lemma_p_labels(v.selector, t8);
    lemma_p_lit("}}"@, rest);
}

/// Parses the tail of a canonical workload — the optional strategy block,
/// the template and the container — completing the already-parsed front.
pub open spec fn p_workload_rest(
    s: Seq<char>,
    meta: ChildMetaView,
    rep: int,
    ml: LabelsView,
) -> Option<(WorkloadChildView, Seq<char>)> {
    let (ru, s8) = match p_lit(s, ",\"strategy\":{\"rollingUpdate\":{}}"@) {
        Option::Some(sa) => (true, sa),
        Option::None => (false, s),
    };
    match p_lit(s8, ",\"template\":{\"metadata\":{\"labels\":"@) {
        Option::None => Option::None,
        Option::Some(s9) => match p_labels(s9) {
            Option::None => Option::None,
            Option::Some((tl, s10)) => match p_lit(
                s10,
                "},\"spec\":{\"containers\":[{\"image\":"@,
            ) {
                Option::None => Option::None,
                Option::Some(s11) => match p_str(s11) {
                    Option::None => Option::None,
                    Option::Some((img, s12)) => match p_lit(s12, ",\"name\":"@) {
                        Option::None => Option::None,
                        Option::Some(s13) => match p_str(s13) {
                            Option::None => Option::None,
                            Option::Some((cn, s14)) => match p_lit(
                                s14,
                                ",\"ports\":[{\"containerPort\":"@,
                            ) {
                                Option::None => Option::None,
                                Option::Some(s15) => match p_int(s15) {
                                    Option::None => Option::None,
                                    Option::Some((cp, s16)) => match p_lit(s16, "}]}]}}}}"@) {
                                        Option::None => Option::None,
                                        Option::Some(s17) => Option::Some(
                                            (
                                                WorkloadChildView {
                                                    meta: meta,
                                                    replicas: rep,
                                                    match_labels: ml,
                                                    template_labels: tl,
                                                    container_name: cn,
                                                    image: img,
                                                    container_port: cp,
                                                    rolling_update: ru,
                                                },
                                                s17,
                                            ),
                                        ),
                                    },
                                },
                            },
                        },
                    },
                },
            },
        },
    }
}

/// Parses a canonical desired workload.
pub open spec fn p_workload(s: Seq<char>) -> Option<(WorkloadChildView, Seq<char>)> {
    match p_lit(s, "{\"apiVersion\":\"apps/v1\",\"kind\":\"Deployment\",\"metadata\":"@) {
        Option::None => Option::None,
        Option::Some(s1) => match p_meta(s1) {
            Option::None => Option::None,
            Option::Some((meta, s2)) => match p_lit(s2, ",\"spec\":{\"replicas\":"@) {
                Option::None => Option::None,
                Option::Some(s3) => match p_int(s3) {
                    Option::None => Option::None,
                    Option::Some((rep, s4)) => match p_lit(
                        s4,
                        ",\"selector\":{\"matchLabels\":"@,
                    ) {
                        Option::None => Option::None,
                        Option::Some(s5) => match p_labels(s5) {
                            Option::None => Option::None,
                            Option::Some((ml, s6)) => match p_lit(s6, "}"@) {
                                Option::None => Option::None,
                                Option::Some(s7) => p_workload_rest(s7, meta, rep, ml),
                            },
                        },
                    },
                },
            },
        },
    }
}

/// Parsing the serialized tail completes the workload.
#[verifier::rlimit(100)]
proof fn lemma_p_workload_rest(w: WorkloadChildView, rest: Seq<char>)
    ensures
        ({
            let t14 = "}]}]}}}}"@ + rest;
            let t13 = dec_int(w.container_port) + t14;
            let t12 = ",\"ports\":[{\"containerPort\":"@ + t13;
            let t11 = jstr(w.container_name) + t12;
            let t10 = ",\"name\":"@ + t11;
            let t9 = jstr(w.image) + t10;
            let t8 = "},\"spec\":{\"containers\":[{\"image\":"@ + t9;
            let t7 = ser_labels(w.template_labels) + t8;
            let t6 = ",\"template\":{\"metadata\":{\"labels\":"@ + t7;
            let t5s = if w.rolling_update {
                ",\"strategy\":{\"rollingUpdate\":{}}"@ + t6
            } else {
                t6
            };
            p_workload_rest(t5s, w.meta, w.replicas, w.match_labels) == Option::Some((w, rest))
        }),
{
    reveal_strlit(",\"strategy\":{\"rollingUpdate\":{}}");
    reveal_strlit(",\"template\":{\"metadata\":{\"labels\":");
    reveal_strlit("}]}]}}}}");
    let t14 = "}]}]}}}}"@ + rest;
    let t13 = dec_int(w.container_port) + t14;
    let t12 = ",\"ports\":[{\"containerPort\":"@ + t13;
    let t11 = jstr(w.container_name) + t12;
    let t10 = ",\"name\":"@ + t11;
    let t9 = jstr(w.image) + t10;
    let t8 = "},\"spec\":{\"containers\":[{\"image\":"@ + t9;
    let t7 = ser_labels(w.template_labels) + t8;
    let t6 = ",\"template\":{\"metadata\":{\"labels\":"@ + t7;
    let t5s = if w.rolling_update {
        ",\"strategy\":{\"rollingUpdate\":{}}"@ + t6
    } else {
        t6
    };
    if w.rolling_update {
        lemma_p_lit(",\"strategy\":{\"rollingUpdate\":{}}"@, t6);
    } else {
        assert(t5s[2] == 't');
        lemma_p_lit_mismatch(t5s, ",\"strategy\":{\"rollingUpdate\":{}}"@, 2);
    }
    lemma_p_lit(",\"template\":{\"metadata\":{\"labels\":"@, t7);
    lemma_p_labels(w.template_labels, t8);
    lemma_p_lit("},\"spec\":{\"containers\":[{\"image\":"@, t9);
    lemma_p_str(w.image, t10);
    lemma_p_lit(",\"name\":"@, t11);
    lemma_p_str(w.container_name, t12);
    lemma_p_lit(",\"ports\":[{\"containerPort\":"@, t13);
    assert(t14[0] == '}' && !is_digit('}'));
    lemma_p_int(w.container_port, t14);
    lemma_p_lit("}]}]}}}}"@, rest);
}

/// A serialized workload, followed by anything, regrouped into its parse
/// order.
#[verifier::rlimit(100)]
proof fn lemma_ser_workload_shape(w: WorkloadChildView, rest: Seq<char>)
    ensures
        ({
            let t14 = "}]}]}}}}"@ + rest;
            let t13 = dec_int(w.container_port) + t14;
            let t12 = ",\"ports\":[{\"containerPort\":"@ + t13;
            let t11 = jstr(w.container_name) + t12;
            let t10 = ",\"name\":"@ + t11;
            let t9 = jstr(w.image) + t10;
            let t8 = "},\"spec\":{\"containers\":[{\"image\":"@ + t9;
            let t7 = ser_labels(w.template_labels) + t8;
            let t6 = ",\"template\":{\"metadata\":{\"labels\":"@ + t7;
            let t5s = if w.rolling_update {
                ",\"strategy\":{\"rollingUpdate\":{}}"@ + t6
            } else {
                t6
            };
            let t5 = "}"@ + t5s;
            let t4 = ser_labels(w.match_labels) + t5;
            let t3 = ",\"selector\":{\"matchLabels\":"@ + t4;
            let t2 = dec_int(w.replicas) + t3;
            let t1 = ",\"spec\":{\"replicas\":"@ + t2;
            let t0 = ser_meta(w.meta) + t1;
            ser_workload(w) + rest
                == "{\"apiVersion\":\"apps/v1\",\"kind\":\"Deployment\",\"metadata\":"@ + t0
        }),
{
    let lit_head = "{\"apiVersion\":\"apps/v1\",\"kind\":\"Deployment\",\"metadata\":"@;
    let lit_repl = ",\"spec\":{\"replicas\":"@;
    let lit_sel = ",\"selector\":{\"matchLabels\":"@;
    let lit_close = "}"@;
    let lit_strat = ",\"strategy\":{\"rollingUpdate\":{}}"@;
    let lit_templ = ",\"template\":{\"metadata\":{\"labels\":"@;
    let lit_img = "},\"spec\":{\"containers\":[{\"image\":"@;
    let lit_name = ",\"name\":"@;
    let lit_ports = ",\"ports\":[{\"containerPort\":"@;
    let lit_tail = "}]}]}}}}"@;
    let strat = if w.rolling_update {
        lit_strat
    } else {
        Seq::<char>::empty()
    };
    let a0 = lit_head;
    let a1 = a0 + ser_meta(w.meta);
    let a2 = a1 + lit_repl;
    let a3 = a2 + dec_int(w.replicas);
    let a4 = a3 + lit_sel;
    let a5 = a4 + ser_labels(w.match_labels);
    let a6 = a5 + lit_close;
    let a7 = a6 + strat;
    let a8 = a7 + lit_templ;
    let a9 = a8 + ser_labels(w.template_labels);
    let a10 = a9 + lit_img;
    let a11 = a10 + jstr(w.image);
    let a12 = a11 + lit_name;
    let a13 = a12 + jstr(w.container_name);
    let a14 = a13 + lit_ports;
    let a15 = a14 + dec_int(w.container_port);
    let a16 = a15 + lit_tail;
    assert(ser_workload(w) == a16);
    let t14 = lit_tail + rest;
    seq_assoc(a15, lit_tail, rest);
    let t13 = dec_int(w.container_port) + t14;
    seq_assoc(a14, dec_int(w.container_port), t14);
    let t12 = lit_ports + t13;
    seq_assoc(a13, lit_ports, t13);
    let t11 = jstr(w.container_name) + t12;
    seq_assoc(a12, jstr(w.container_name), t12);
    let t10 = lit_name + t11;
    seq_assoc(a11, lit_name, t11);
    let t9 = jstr(w.image) + t10;
    seq_assoc(a10, jstr(w.image), t10);
    let t8 = lit_img + t9;
    seq_assoc(a9, lit_img, t9);
    let t7 = ser_labels(w.template_labels) + t8;
    seq_assoc(a8, ser_labels(w.template_labels), t8);
    let t6 = lit_templ + t7;
    seq_assoc(a7, lit_templ, t7);
    let ts = strat + t6;
    seq_assoc(a6, strat, t6);
    let t5s = if w.rolling_update {
        lit_strat + t6
    } else {
        t6
    };
    assert(ts == t5s) by {
        if !w.rolling_update {
            assert(Seq::<char>::empty() + t6 =~= t6);
        }
    }
    let t5 = lit_close + t5s;
    seq_assoc(a5, lit_close, t5s);
    let t4 = ser_labels(w.match_labels) + t5;
    seq_assoc(a4, ser_labels(w.match_labels), t5);
    let t3 = lit_sel + t4;
    seq_assoc(a3, lit_sel, t4);
    let t2 = dec_int(w.replicas) + t3;
    seq_assoc(a2, dec_int(w.replicas), t3);
    let t1 = lit_repl + t2;
    seq_assoc(a1, lit_repl, t2);
    let t0 = ser_meta(w.meta) + t1;
    seq_assoc(a0, ser_meta(w.meta), t1);
    assert(a16 + rest == a0 + t0);
}

/// Parsing a serialized workload yields it back.
#[verifier::rlimit(100)]
proof fn lemma_p_workload(w: WorkloadChildView, rest: Seq<char>)
    ensures
        p_workload(ser_workload(w) + rest) == Option::Some((w, rest)),
{
    reveal_strlit(",\"selector\":{\"matchLabels\":");
    lemma_ser_workload_shape(w, rest);
    let s = ser_workload(w) + rest;
    let t14 = "}]}]}}}}"@ + rest;
    let t13 = dec_int(w.container_port) + t14;
    let t12 = ",\"ports\":[{\"containerPort\":"@ + t13;
    let t11 = jstr(w.container_name) + t12;
    let t10 = ",\"name\":"@ + t11;
    let t9 = jstr(w.image) + t10;
    let t8 = "},\"spec\":{\"containers\":[{\"image\":"@ + t9;
    let t7 = ser_labels(w.template_labels) + t8;
    let t6 = ",\"template\":{\"metadata\":{\"labels\":"@ + t7;
    let t5s = if w.rolling_update {
        ",\"strategy\":{\"rollingUpdate\":{}}"@ + t6
    } else {
        t6
    };
    let t5 = "}"@ + t5s;
    let t4 = ser_labels(w.match_labels) + t5;
    let t3 = ",\"selector\":{\"matchLabels\":"@ + t4;
    let t2 = dec_int(w.replicas) + t3;
    let t1 = ",\"spec\":{\"replicas\":"@ + t2;
    let t0 = ser_meta(w.meta) + t1;
    lemma_p_lit("{\"apiVersion\":\"apps/v1\",\"kind\":\"Deployment\",\"metadata\":"@, t0);
    lemma_p_meta(w.meta, t1);
    lemma_p_lit(",\"spec\":{\"replicas\":"@, t2);
    assert(t3[0] == ',' && !is_digit(','));
    lemma_p_int(w.replicas, t3);
    lemma_p_lit(",\"selector\":{\"matchLabels\":"@, t4);
    lemma_p_labels(w.match_labels, t5);
    lemma_p_lit("}"@, t5s);
    lemma_p_workload_rest(w, rest);
}

/// Parses a canonical desired mirror route.
pub open spec fn p_mirror(s: Seq<char>) -> Option<(MirrorRouteChildView, Seq<char>)> {
    match p_lit(
        s,
        "{\"apiVersion\":\"traefik.containo.us/v1alpha1\",\"kind\":\"TraefikService\",\"metadata\":"@,
    ) {
        Option::None => Option::None,
        Option::Some(s1) => match p_meta(s1) {
            Option::None => Option::None,
            Option::Some((meta, s2)) => match p_lit(
                s2,
                ",\"spec\":{\"mirroring\":{\"kind\":\"Service\",\"mirrors\":[{\"kind\":\"Service\",\"name\":"@,
            ) {
                Option::None => Option::None,
                Option::Some(s3) => match p_str(s3) {
                    Option::None => Option::None,
                    Option::Some((mn, s4)) => match p_lit(s4, ",\"percent\":"@) {
                        Option::None => Option::None,
                        Option::Some(s5) => match p_int(s5) {
                            Option::None => Option::None,
                            Option::Some((pc, s6)) => match p_lit(s6, ",\"port\":"@) {
                                Option::None => Option::None,
                                Option::Some(s7) => match p_int(s7) {
                                    Option::None => Option::None,
                                    Option::Some((mp, s8)) => match p_lit(s8, "}],\"name\":"@) {
                                        Option::None => Option::None,
                                        Option::Some(s9) => match p_str(s9) {
                                            Option::None => Option::None,
                                            Option::Some((pn, s10)) => match p_lit(
                                                s10,
                                                ",\"port\":"@,
                                            ) {
                                                Option::None => Option::None,
                                                Option::Some(s11) => match p_int(s11) {
                                                    Option::None => Option::None,
                                                    Option::Some((pp, s12)) => match p_lit(
                                                        s12,
                                                        "}}}"@,
                                                    ) {
                                                        Option::None => Option::None,
                                                        Option::Some(s13) => Option::Some(
                                                            (
                                                                MirrorRouteChildView {
                                                                    meta: meta,
                                                                    primary_name: pn,
                                                                    primary_port: pp,
                                                                    mirror_name: mn,
                                                                    mirror_port: mp,
                                                                    mirror_percent: pc,
                                                                },
                                                                s13,
                                                            ),
                                                        ),
                                                    },
                                                },
                                            },
                                        },
                                    },
                                },
                            },
                        },
                    },
                },
            },
        },
    }
}

/// Parsing a serialized mirror route yields it back.
#[verifier::rlimit(100)]
proof fn lemma_p_mirror(m: MirrorRouteChildView, rest: Seq<char>)
    ensures
        p_mirror(ser_mirror(m) + rest) == Option::Some((m, rest)),
{
    reveal_strlit(",\"port\":");
    reveal_strlit("}],\"name\":");
    reveal_strlit("}}}");
    let s = ser_mirror(m) + rest;
    let t10 = "}}}"@ + rest;
    let t9 = dec_int(m.primary_port) + t10;
    let t8 = ",\"port\":"@ + t9;
    let t7 = jstr(m.primary_name) + t8;
    let t6 = "}],\"name\":"@ + t7;
    let t5 = dec_int(m.mirror_port) + t6;
    let t4 = ",\"port\":"@ + t5;
    let t3 = dec_int(m.mirror_percent) + t4;
    let t2 = ",\"percent\":"@ + t3;
    let t1 = jstr(m.mirror_name) + t2;
    let t0 =
        ",\"spec\":{\"mirroring\":{\"kind\":\"Service\",\"mirrors\":[{\"kind\":\"Service\",\"name\":"@
        + t1;
    let tm = ser_meta(m.meta) + t0;
    assert(s
        =~= "{\"apiVersion\":\"traefik.containo.us/v1alpha1\",\"kind\":\"TraefikService\",\"metadata\":"@
        + tm);
    lemma_p_lit(
        "{\"apiVersion\":\"traefik.containo.us/v1alpha1\",\"kind\":\"TraefikService\",\"metadata\":"@,
        tm,
    );
    lemma_p_meta(m.meta, t0);
    lemma_p_lit(
        ",\"spec\":{\"mirroring\":{\"kind\":\"Service\",\"mirrors\":[{\"kind\":\"Service\",\"name\":"@,
        t1,
    );
    lemma_p_str(m.mirror_name, t2);
    lemma_p_lit(",\"percent\":"@, t3);
    assert(t4[0] == ',' && !is_digit(','));
    lemma_p_int(m.mirror_percent, t4);
    lemma_p_lit(",\"port\":"@, t5);
    assert(t6[0] == '}' && !is_digit('}'));
    lemma_p_int(m.mirror_port, t6);
    lemma_p_lit("}],\"name\":"@, t7);
    lemma_p_str(m.primary_name, t8);
    lemma_p_lit(",\"port\":"@, t9);
    assert(t10[0] == '}' && !is_digit('}'));
    lemma_p_int(m.primary_port, t10);
    lemma_p_lit("}}}"@, rest);
}

/// Parses a canonical desired ingress route.
pub open spec fn p_ingress(s: Seq<char>) -> Option<(IngressRouteChildView, Seq<char>)> {
    match p_lit(
        s,
        "{\"apiVersion\":\"traefik.containo.us/v1alpha1\",\"kind\":\"IngressRoute\",\"metadata\":"@,
    ) {
        Option::None => Option::None,
        Option::Some(s1) => match p_meta(s1) {
            Option::None => Option::None,
            Option::Some((meta, s2)) => match p_lit(s2, ",\"spec\":{\"entryPoints\":["@) {
                Option::None => Option::None,
                Option::Some(s3) => match p_str(s3) {
                    Option::None => Option::None,
                    Option::Some((ep, s4)) => match p_lit(
                        s4,
                        "],\"routes\":[{\"kind\":\"Rule\",\"match\":"@,
                    ) {
                        Option::None => Option::None,
                        Option::Some(s5) => match p_str(s5) {
                            Option::None => Option::None,
                            Option::Some((mr, s6)) => match p_lit(
                                s6,
                                ",\"services\":[{\"kind\":\"TraefikService\",\"name\":"@,
                            ) {
                                Option::None => Option::None,
                                Option::Some(s7) => match p_str(s7) {
                                    Option::None => Option::None,
                                    Option::Some((sn, s8)) => match p_lit(s8, ",\"port\":"@) {
                                        Option::None => Option::None,
                                        Option::Some(s9) => match p_int(s9) {
                                            Option::None => Option::None,
                                            Option::Some((sp, s10)) => match p_lit(
                                                s10,
                                                "}]}]}}"@,
                                            ) {
                                                Option::None => Option::None,
                                                Option::Some(s11) => Option::Some(
                                                    (
                                                        IngressRouteChildView {
                                                            meta: meta,
                                                            entry_point: ep,
                                                            match_rule: mr,
                                                            service_name: sn,
                                                            service_port: sp,
                                                        },
                                                        s11,
                                                    ),
                                                ),
                                            },
                                        },
                                    },
                                },
                            },
                        },
                    },
                },
            },
        },
    }
}

/// Parsing a serialized ingress route yields it back.
#[verifier::rlimit(100)]
proof fn lemma_p_ingress(i: IngressRouteChildView, rest: Seq<char>)
    ensures
        p_ingress(ser_ingress(i) + rest) == Option::Some((i, rest)),
{
    reveal_strlit("}]}]}}");
    let s = ser_ingress(i) + rest;
    let t8 = "}]}]}}"@ + rest;
    let t7 = dec_int(i.service_port) + t8;
    let t6 = ",\"port\":"@ + t7;
    let t5 = jstr(i.service_name) + t6;
    let t4 = ",\"services\":[{\"kind\":\"TraefikService\",\"name\":"@ + t5;
    let t3 = jstr(i.match_rule) + t4;
    let t2 = "],\"routes\":[{\"kind\":\"Rule\",\"match\":"@ + t3;
    let t1 = jstr(i.entry_point) + t2;
    let t0 = ",\"spec\":{\"entryPoints\":["@ + t1;
    let tm = ser_meta(i.meta) + t0;
    assert(s
        =~= "{\"apiVersion\":\"traefik.containo.us/v1alpha1\",\"kind\":\"IngressRoute\",\"metadata\":"@
        + tm);
    lemma_p_lit(
        "{\"apiVersion\":\"traefik.containo.us/v1alpha1\",\"kind\":\"IngressRoute\",\"metadata\":"@,
        tm,
    );
    lemma_p_meta(i.meta, t0);
    lemma_p_lit(",\"spec\":{\"entryPoints\":["@, t1);
    lemma_p_str(i.entry_point, t2);
    lemma_p_lit("],\"routes\":[{\"kind\":\"Rule\",\"match\":"@, t3);
    lemma_p_str(i.match_rule, t4);
    lemma_p_lit(",\"services\":[{\"kind\":\"TraefikService\",\"name\":"@, t5);
    lemma_p_str(i.service_name, t6);
    lemma_p_lit(",\"port\":"@, t7);
    assert(t8[0] == '}' && !is_digit('}'));
    lemma_p_int(i.service_port, t8);
    lemma_p_lit("}]}]}}"@, rest);
}

/// Parses a whole canonical child, requiring the text to be consumed
/// entirely.
pub open spec fn p_child(s: Seq<char>) -> Option<ChildView> {
    match p_service(s) {
        Option::Some((v, r)) => if r.len() == 0 {
            Option::Some(ChildView::Service(v))
        } else {
            Option::None
        },
        Option::None => match p_workload(s) {
            Option::Some((w, r)) => if r.len() == 0 {
                Option::Some(ChildView::Workload(w))
            } else {
                Option::None
            },
            Option::None => match p_mirror(s) {
                Option::Some((m, r)) => if r.len() == 0 {
                    Option::Some(ChildView::Mirror(m))
                } else {
                    Option::None
                },
                Option::None => match p_ingress(s) {
                    Option::Some((i, r)) => if r.len() == 0 {
                        Option::Some(ChildView::Ingress(i))
                    } else {
                        Option::None
                    },
                    Option::None => Option::None,
                },
            },
        },
    }
}

/// A serialized service parses as a whole child.
#[verifier::rlimit(100)]
proof fn lemma_rt_service(v: ServiceChildView)
    ensures
        p_child(ser_service(v)) == Option::Some(ChildView::Service(v)),
{
    let e = Seq::<char>::empty();
    lemma_p_service(v, e);
    assert(ser_service(v) + e =~= ser_service(v));
}

/// A serialized workload parses as a whole child.
#[verifier::rlimit(100)]
proof fn lemma_rt_workload(w: WorkloadChildView)
    ensures
        p_child(ser_workload(w)) == Option::Some(ChildView::Workload(w)),
{
    reveal_strlit("{\"apiVersion\":\"v1\",\"kind\":\"Service\",\"metadata\":");
    reveal_strlit("{\"apiVersion\":\"apps/v1\",\"kind\":\"Deployment\",\"metadata\":");
    let e = Seq::<char>::empty();
    lemma_p_workload(w, e);
    assert(ser_workload(w) + e =~= ser_workload(w));
    let s = ser_workload(w);
    assert(s[15] == 'a');
    lemma_p_lit_mismatch(s, "{\"apiVersion\":\"v1\",\"kind\":\"Service\",\"metadata\":"@, 15);
}

/// A serialized mirror route parses as a whole child.
#[verifier::rlimit(100)]
proof fn lemma_rt_mirror(m: MirrorRouteChildView)
    ensures
        p_child(ser_mirror(m)) == Option::Some(ChildView::Mirror(m)),
{
    reveal_strlit("{\"apiVersion\":\"v1\",\"kind\":\"Service\",\"metadata\":");
    reveal_strlit("{\"apiVersion\":\"apps/v1\",\"kind\":\"Deployment\",\"metadata\":");
    reveal_strlit(
        "{\"apiVersion\":\"traefik.containo.us/v1alpha1\",\"kind\":\"TraefikService\",\"metadata\":",
    );
    let e = Seq::<char>::empty();
    lemma_p_mirror(m, e);
    assert(ser_mirror(m) + e =~= ser_mirror(m));
    let s = ser_mirror(m);
    assert(s[15] == 't');
    lemma_p_lit_mismatch(s, "{\"apiVersion\":\"v1\",\"kind\":\"Service\",\"metadata\":"@, 15);
    lemma_p_lit_mismatch(
        s,
        "{\"apiVersion\":\"apps/v1\",\"kind\":\"Deployment\",\"metadata\":"@,
        15,
    );
}

/// A serialized ingress route parses as a whole child.
#[verifier::rlimit(100)]
proof fn lemma_rt_ingress(i: IngressRouteChildView)
    ensures
        p_child(ser_ingress(i)) == Option::Some(ChildView::Ingress(i)),
{
    reveal_strlit("{\"apiVersion\":\"v1\",\"kind\":\"Service\",\"metadata\":");
    reveal_strlit("{\"apiVersion\":\"apps/v1\",\"kind\":\"Deployment\",\"metadata\":");
    reveal_strlit(
        "{\"apiVersion\":\"traefik.containo.us/v1alpha1\",\"kind\":\"TraefikService\",\"metadata\":",
    );
    reveal_strlit(
        "{\"apiVersion\":\"traefik.containo.us/v1alpha1\",\"kind\":\"IngressRoute\",\"metadata\":",
    );
    let e = Seq::<char>::empty();
    lemma_p_ingress(i, e);
    assert(ser_ingress(i) + e =~= ser_ingress(i));
    let s = ser_ingress(i);
    assert(s[15] == 't');
    lemma_p_lit_mismatch(s, "{\"apiVersion\":\"v1\",\"kind\":\"Service\",\"metadata\":"@, 15);
    lemma_p_lit_mismatch(
        s,
        "{\"apiVersion\":\"apps/v1\",\"kind\":\"Deployment\",\"metadata\":"@,
        15,
    );
    assert(s[53] == 'I');
    lemma_p_lit_mismatch(
        s,
        "{\"apiVersion\":\"traefik.containo.us/v1alpha1\",\"kind\":\"TraefikService\",\"metadata\":"@,
        53,
    );
}

/// The canonical serialization round-trips: parsing a child's canonical
/// form yields exactly that child.  This is what lets the fingerprint of
/// the canonical form stand for the desired content itself.
pub proof fn lemma_canonical_round_trip(c: ChildView)
    ensures
        p_child(ser_child(c)) == Option::Some(c),
{
    match c {
        ChildView::Service(v) => lemma_rt_service(v),
        ChildView::Workload(w) => lemma_rt_workload(w),
        ChildView::Mirror(m) => lemma_rt_mirror(m),
        ChildView::Ingress(i) => lemma_rt_ingress(i),
    }
}

/// The canonical serialization is injective: children with the same
/// canonical form are the same child.
pub proof fn lemma_canonical_injective(a: ChildView, b: ChildView)
    requires
        ser_child(a) == ser_child(b),
    ensures
        a == b,
{
    lemma_canonical_round_trip(a);
    lemma_canonical_round_trip(b);
}

} // verus!
