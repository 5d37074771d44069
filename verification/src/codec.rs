//! The canonical serialization the fingerprint is computed over: a
//! deterministic JSON text with sorted keys, defined character by character
//! at the specification level and implemented by verified emitters.

use vstd::prelude::*;
use vstd::string::*;
use crate::child::{
    Child, ChildView, ChildMeta, ChildMetaView, Labels, LabelsView, OwnerRef, OwnerRefView,
    ServiceChild, ServiceChildView, WorkloadChild, WorkloadChildView, MirrorRouteChild,
    MirrorRouteChildView, IngressRouteChild, IngressRouteChildView,
};

verus! {

/// The decimal digit character for one value below ten.
pub open spec fn digit(n: int) -> char {
    if n == 0 {
        '0'
    } else if n == 1 {
        '1'
    } else if n == 2 {
        '2'
    } else if n == 3 {
        '3'
    } else if n == 4 {
        '4'
    } else if n == 5 {
        '5'
    } else if n == 6 {
        '6'
    } else if n == 7 {
        '7'
    } else if n == 8 {
        '8'
    } else {
        '9'
    }
}

/// The lower-case hexadecimal digit character for one value below sixteen.
pub open spec fn hexdig(n: int) -> char {
    if n < 10 {
        digit(n)
    } else if n == 10 {
        'a'
    } else if n == 11 {
        'b'
    } else if n == 12 {
        'c'
    } else if n == 13 {
        'd'
    } else if n == 14 {
        'e'
    } else {
        'f'
    }
}

/// The decimal representation of a natural number, most significant first.
pub open spec fn dec_digits(n: nat) -> Seq<char>
    decreases n,
{
    if n < 10 {
        seq![digit(n as int)]
    } else {
        dec_digits(n / 10) + seq![digit((n % 10) as int)]
    }
}

/// The decimal representation of an integer, with a leading minus sign when
/// negative.
pub open spec fn dec_int(n: int) -> Seq<char> {
    if n < 0 {
        seq!['-'] + dec_digits((-n) as nat)
    } else {
        dec_digits(n as nat)
    }
}

/// How one character appears inside a canonical JSON string: quote and
/// backslash are escaped, control characters become `\u00XX`, and every
/// other character stands for itself.
pub open spec fn esc_char(c: char) -> Seq<char> {
    if c == '"' {
        seq!['\\', '"']
    } else if c == '\\' {
        seq!['\\', '\\']
    } else if (c as u32) < 32 {
        seq!['\\', 'u', '0', '0', hexdig((c as u32) as int / 16), hexdig((c as u32) as int % 16)]
    } else {
        seq![c]
    }
}

/// The escaped body of a canonical JSON string.
pub open spec fn escape(s: Seq<char>) -> Seq<char>
    decreases s.len(),
{
    if s.len() == 0 {
        Seq::empty()
    } else {
        esc_char(s[0]) + escape(s.skip(1))
    }
}

/// A canonical JSON string: the escaped body between double quotes.
pub open spec fn jstr(s: Seq<char>) -> Seq<char> {
    seq!['"'] + escape(s) + seq!['"']
}

/// A canonical JSON boolean.
pub open spec fn jbool(b: bool) -> Seq<char> {
    if b {
        "true"@
    } else {
        "false"@
    }
}

/// Escaping distributes over concatenation.
pub proof fn lemma_escape_concat(a: Seq<char>, b: Seq<char>)
    ensures
        escape(a + b) == escape(a) + escape(b),
    decreases a.len(),
{
    if a.len() == 0 {
        assert(a + b =~= b);
        assert(escape(a) + escape(b) =~= escape(b));
    } else {
        assert((a + b).skip(1) =~= a.skip(1) + b);
        lemma_escape_concat(a.skip(1), b);
        assert((a + b)[0] == a[0]);
        assert(escape(a + b) == esc_char(a[0]) + (escape(a.skip(1)) + escape(b)));
        assert(esc_char(a[0]) + (escape(a.skip(1)) + escape(b)) =~= (esc_char(a[0]) + escape(
            a.skip(1),
        )) + escape(b));
    }
}

/// Escaping one more character appends its escape.
pub proof fn lemma_escape_snoc(s: Seq<char>, i: int)
    requires
        0 <= i < s.len(),
    ensures
        escape(s.subrange(0, i + 1)) == escape(s.subrange(0, i)) + esc_char(s[i]),
{
    let a = s.subrange(0, i);
    let u = s.subrange(i, i + 1);
    assert(s.subrange(0, i + 1) =~= a + u);
    lemma_escape_concat(a, u);
    assert(u.skip(1) =~= Seq::<char>::empty());
    assert(escape(u) == esc_char(s[i]) + escape(u.skip(1)));
    assert(esc_char(s[i]) + Seq::<char>::empty() =~= esc_char(s[i]));
}

/// Appends every character of `s` to `buf`.
pub fn push_lit(buf: &mut Vec<char>, s: &str)
    ensures
        final(buf)@ == old(buf)@ + s@,
{
    let l = s.unicode_len();
    let mut i: usize = 0;
    while i < l
        invariant
            l == s@.len(),
            i <= l,
            buf@ == old(buf)@ + s@.subrange(0, i as int),
        decreases l - i,
    {
        let c = s.get_char(i);
        buf.push(c);
        proof {
            assert(buf@ =~= old(buf)@ + s@.subrange(0, i + 1));
        }
        i += 1;
    }
    proof {
        assert(s@.subrange(0, s@.len() as int) =~= s@);
    }
}

/// The lower-case hexadecimal digit for a value below sixteen.
fn hexdig_char(n: u32) -> (r: char)
    requires
        n < 16,
    ensures
        r == hexdig(n as int),
{
    if n == 0 {
        '0'
    } else if n == 1 {
        '1'
    } else if n == 2 {
        '2'
    } else if n == 3 {
        '3'
    } else if n == 4 {
        '4'
    } else if n == 5 {
        '5'
    } else if n == 6 {
        '6'
    } else if n == 7 {
        '7'
    } else if n == 8 {
        '8'
    } else if n == 9 {
        '9'
    } else if n == 10 {
        'a'
    } else if n == 11 {
        'b'
    } else if n == 12 {
        'c'
    } else if n == 13 {
        'd'
    } else if n == 14 {
        'e'
    } else {
        'f'
    }
}

/// Appends the escape of one character.
fn push_esc_char(buf: &mut Vec<char>, c: char)
    ensures
        final(buf)@ == old(buf)@ + esc_char(c),
{
    if c == '"' {
        buf.push('\\');
        buf.push('"');
        proof {
            assert(buf@ =~= old(buf)@ + esc_char(c));
        }
    } else if c == '\\' {
        buf.push('\\');
        buf.push('\\');
        proof {
            assert(buf@ =~= old(buf)@ + esc_char(c));
        }
    } else {
        let code = c as u32;
        if code < 32 {
            buf.push('\\');
            buf.push('u');
            buf.push('0');
            buf.push('0');
            buf.push(hexdig_char(code / 16));
            buf.push(hexdig_char(code % 16));
            proof {
                assert(buf@ =~= old(buf)@ + esc_char(c));
            }
        } else {
            buf.push(c);
            proof {
                assert(buf@ =~= old(buf)@ + esc_char(c));
            }
        }
    }
}

/// Appends a canonical JSON string for `s`.
pub fn push_jstr(buf: &mut Vec<char>, s: &str)
    ensures
        final(buf)@ == old(buf)@ + jstr(s@),
{
    buf.push('"');
    let l = s.unicode_len();
    let mut i: usize = 0;
    while i < l
        invariant
            l == s@.len(),
            i <= l,
            buf@ == old(buf)@ + seq!['"'] + escape(s@.subrange(0, i as int)),
        decreases l - i,
    {
        let c = s.get_char(i);
        push_esc_char(buf, c);
        proof {
            lemma_escape_snoc(s@, i as int);
            assert(buf@ =~= old(buf)@ + seq!['"'] + escape(s@.subrange(0, i + 1)));
        }
        i += 1;
    }
    buf.push('"');
    proof {
        assert(s@.subrange(0, s@.len() as int) =~= s@);
        assert(buf@ =~= old(buf)@ + jstr(s@));
    }
}

/// Appends the decimal representation of a natural number.
fn push_u32(buf: &mut Vec<char>, n: u32)
    ensures
        final(buf)@ == old(buf)@ + dec_digits(n as nat),
    decreases n,
{
    if n < 10 {
        buf.push(digit_char(n));
        proof {
            assert(buf@ =~= old(buf)@ + dec_digits(n as nat));
        }
    } else {
        push_u32(buf, n / 10);
        buf.push(digit_char(n % 10));
        proof {
            assert(buf@ =~= old(buf)@ + dec_digits(n as nat));
        }
    }
}

/// The decimal digit for a value below ten.
fn digit_char(n: u32) -> (r: char)
    requires
        n < 10,
    ensures
        r == digit(n as int),
{
    if n == 0 {
        '0'
    } else if n == 1 {
        '1'
    } else if n == 2 {
        '2'
    } else if n == 3 {
        '3'
    } else if n == 4 {
        '4'
    } else if n == 5 {
        '5'
    } else if n == 6 {
        '6'
    } else if n == 7 {
        '7'
    } else if n == 8 {
        '8'
    } else {
        '9'
    }
}

/// Appends the decimal representation of an integer.
pub fn push_i32(buf: &mut Vec<char>, n: i32)
    ensures
        final(buf)@ == old(buf)@ + dec_int(n as int),
{
    if n >= 0 {
        push_u32(buf, n as u32);
    } else {
        buf.push('-');
        let mag: u32 = if n == i32::MIN {
            2147483648u32
        } else {
            (-n) as u32
        };
        proof {
            assert(mag as int == -(n as int));
        }
        push_u32(buf, mag);
        proof {
            assert(buf@ =~= old(buf)@ + dec_int(n as int));
        }
    }
}

/// Appends a canonical JSON boolean.
pub fn push_jbool(buf: &mut Vec<char>, b: bool)
    ensures
        final(buf)@ == old(buf)@ + jbool(b),
{
    if b {
        push_lit(buf, "true");
    } else {
        push_lit(buf, "false");
    }
}

/// The canonical form of the label pair, keys sorted.
pub open spec fn ser_labels(l: LabelsView) -> Seq<char> {
    "{\"app\":"@ + jstr(l.app) + ",\"role\":"@ + jstr(l.role) + "}"@
}

/// The canonical form of the owner-reference list, keys sorted.
pub open spec fn ser_owner(o: OwnerRefView) -> Seq<char> {
    "[{\"apiVersion\":"@ + jstr(o.api_version) + ",\"blockOwnerDeletion\":"@ + jbool(
        o.block_owner_deletion,
    ) + ",\"controller\":"@ + jbool(o.controller) + ",\"kind\":"@ + jstr(o.kind) + ",\"name\":"@
        + jstr(o.name) + ",\"uid\":"@ + jstr(o.uid) + "}]"@
}

/// The canonical form of a child's metadata, keys sorted, absent fields
/// omitted.
pub open spec fn ser_meta(m: ChildMetaView) -> Seq<char> {
    "{"@ + (match m.labels {
        Option::Some(l) => "\"labels\":"@ + ser_labels(l) + ","@,
        Option::None => Seq::<char>::empty(),
    }) + "\"name\":"@ + jstr(m.name) + (match m.namespace {
        Option::Some(ns) => ",\"namespace\":"@ + jstr(ns),
        Option::None => Seq::<char>::empty(),
    }) + ",\"ownerReferences\":"@ + ser_owner(m.owner) + "}"@
}

/// The canonical form of a desired service.
pub open spec fn ser_service(s: ServiceChildView) -> Seq<char> {
    "{\"apiVersion\":\"v1\",\"kind\":\"Service\",\"metadata\":"@ + ser_meta(s.meta)
        + ",\"spec\":{\"ports\":[{\"port\":"@ + dec_int(s.port) + ",\"targetPort\":"@ + dec_int(
        s.target_port,
    ) + "}],\"selector\":"@ + ser_labels(s.selector) + "}}"@
}

/// The canonical form of a desired workload.
pub open spec fn ser_workload(w: WorkloadChildView) -> Seq<char> {
    "{\"apiVersion\":\"apps/v1\",\"kind\":\"Deployment\",\"metadata\":"@ + ser_meta(w.meta)
        + ",\"spec\":{\"replicas\":"@ + dec_int(w.replicas) + ",\"selector\":{\"matchLabels\":"@
        + ser_labels(w.match_labels) + "}"@ + (if w.rolling_update {
        ",\"strategy\":{\"rollingUpdate\":{}}"@
    } else {
        Seq::<char>::empty()
    }) + ",\"template\":{\"metadata\":{\"labels\":"@ + ser_labels(w.template_labels)
        + "},\"spec\":{\"containers\":[{\"image\":"@ + jstr(w.image) + ",\"name\":"@ + jstr(
        w.container_name,
    ) + ",\"ports\":[{\"containerPort\":"@ + dec_int(w.container_port) + "}]}]}}}}"@
}

/// The canonical form of a desired mirror route.
pub open spec fn ser_mirror(m: MirrorRouteChildView) -> Seq<char> {
    "{\"apiVersion\":\"traefik.containo.us/v1alpha1\",\"kind\":\"TraefikService\",\"metadata\":"@
        + ser_meta(m.meta)
        + ",\"spec\":{\"mirroring\":{\"kind\":\"Service\",\"mirrors\":[{\"kind\":\"Service\",\"name\":"@
        + jstr(m.mirror_name) + ",\"percent\":"@ + dec_int(m.mirror_percent) + ",\"port\":"@
        + dec_int(m.mirror_port) + "}],\"name\":"@ + jstr(m.primary_name) + ",\"port\":"@ + dec_int(
        m.primary_port,
    ) + "}}}"@
}

/// The canonical form of a desired ingress route.
pub open spec fn ser_ingress(i: IngressRouteChildView) -> Seq<char> {
    "{\"apiVersion\":\"traefik.containo.us/v1alpha1\",\"kind\":\"IngressRoute\",\"metadata\":"@
        + ser_meta(i.meta) + ",\"spec\":{\"entryPoints\":["@ + jstr(i.entry_point)
        + "],\"routes\":[{\"kind\":\"Rule\",\"match\":"@ + jstr(i.match_rule)
        + ",\"services\":[{\"kind\":\"TraefikService\",\"name\":"@ + jstr(i.service_name)
        + ",\"port\":"@ + dec_int(i.service_port) + "}]}]}}"@
}

/// The canonical form of any desired child.
pub open spec fn ser_child(c: ChildView) -> Seq<char> {
    match c {
        ChildView::Service(s) => ser_service(s),
        ChildView::Workload(w) => ser_workload(w),
        ChildView::Mirror(m) => ser_mirror(m),
        ChildView::Ingress(i) => ser_ingress(i),
    }
}

/// Appends the canonical form of the label pair.
fn push_labels(buf: &mut Vec<char>, l: &Labels)
    ensures
        final(buf)@ == old(buf)@ + ser_labels(l@),
{
    push_lit(buf, "{\"app\":");
    push_jstr(buf, l.app.as_str());
    push_lit(buf, ",\"role\":");
    push_jstr(buf, l.role.as_str());
    push_lit(buf, "}");
    proof {
        assert(buf@ =~= old(buf)@ + ser_labels(l@));
    }
}

/// Appends the canonical form of the owner-reference list.
fn push_owner(buf: &mut Vec<char>, o: &OwnerRef)
    ensures
        final(buf)@ == old(buf)@ + ser_owner(o@),
{
    push_lit(buf, "[{\"apiVersion\":");
    push_jstr(buf, o.api_version.as_str());
    push_lit(buf, ",\"blockOwnerDeletion\":");
    push_jbool(buf, o.block_owner_deletion);
    push_lit(buf, ",\"controller\":");
    push_jbool(buf, o.controller);
    push_lit(buf, ",\"kind\":");
    push_jstr(buf, o.kind.as_str());
    push_lit(buf, ",\"name\":");
    push_jstr(buf, o.name.as_str());
    push_lit(buf, ",\"uid\":");
    push_jstr(buf, o.uid.as_str());
    push_lit(buf, "}]");
    proof {
        assert(buf@ =~= old(buf)@ + ser_owner(o@));
    }
}

/// Appends the canonical form of a child's metadata.
fn push_meta(buf: &mut Vec<char>, m: &ChildMeta)
    ensures
        final(buf)@ == old(buf)@ + ser_meta(m@),
{
    push_lit(buf, "{");
    match &m.labels {
        Some(l) => {
            push_lit(buf, "\"labels\":");
            push_labels(buf, l);
            push_lit(buf, ",");
        },
        None => {},
    }
    push_lit(buf, "\"name\":");
    push_jstr(buf, m.name.as_str());
    match &m.namespace {
        Some(ns) => {
            push_lit(buf, ",\"namespace\":");
            push_jstr(buf, ns.as_str());
        },
        None => {},
    }
    push_lit(buf, ",\"ownerReferences\":");
    push_owner(buf, &m.owner);
    push_lit(buf, "}");
    proof {
        assert(buf@ =~= old(buf)@ + ser_meta(m@));
    }
}

/// Appends the canonical form of a desired service.
fn push_service(buf: &mut Vec<char>, s: &ServiceChild)
    ensures
        final(buf)@ == old(buf)@ + ser_service(s@),
{
    push_lit(buf, "{\"apiVersion\":\"v1\",\"kind\":\"Service\",\"metadata\":");
    push_meta(buf, &s.meta);
    push_lit(buf, ",\"spec\":{\"ports\":[{\"port\":");
    push_i32(buf, s.port);
    push_lit(buf, ",\"targetPort\":");
    push_i32(buf, s.target_port);
    push_lit(buf, "}],\"selector\":");
    push_labels(buf, &s.selector);
    push_lit(buf, "}}");
    proof {
        assert(buf@ =~= old(buf)@ + ser_service(s@));
    }
}

/// Appends the canonical form of a desired workload.
#[verifier::rlimit(100)]
fn push_workload(buf: &mut Vec<char>, w: &WorkloadChild)
    ensures
        final(buf)@ == old(buf)@ + ser_workload(w@),
{
    push_lit(buf, "{\"apiVersion\":\"apps/v1\",\"kind\":\"Deployment\",\"metadata\":");
    push_meta(buf, &w.meta);
    push_lit(buf, ",\"spec\":{\"replicas\":");
    push_i32(buf, w.replicas);
    push_lit(buf, ",\"selector\":{\"matchLabels\":");
    push_labels(buf, &w.match_labels);
    push_lit(buf, "}");
    if w.rolling_update {
        push_lit(buf, ",\"strategy\":{\"rollingUpdate\":{}}");
    }
    push_lit(buf, ",\"template\":{\"metadata\":{\"labels\":");
    push_labels(buf, &w.template_labels);
    push_lit(buf, "},\"spec\":{\"containers\":[{\"image\":");
    push_jstr(buf, w.image.as_str());
    push_lit(buf, ",\"name\":");
    push_jstr(buf, w.container_name.as_str());
    push_lit(buf, ",\"ports\":[{\"containerPort\":");
    push_i32(buf, w.container_port);
    push_lit(buf, "}]}]}}}}");
    proof {
        assert(buf@ =~= old(buf)@ + ser_workload(w@));
    }
}

/// Appends the canonical form of a desired mirror route.
fn push_mirror(buf: &mut Vec<char>, m: &MirrorRouteChild)
    ensures
        final(buf)@ == old(buf)@ + ser_mirror(m@),
{
    push_lit(
        buf,
        "{\"apiVersion\":\"traefik.containo.us/v1alpha1\",\"kind\":\"TraefikService\",\"metadata\":",
    );
    push_meta(buf, &m.meta);
    push_lit(
        buf,
        ",\"spec\":{\"mirroring\":{\"kind\":\"Service\",\"mirrors\":[{\"kind\":\"Service\",\"name\":",
    );
    push_jstr(buf, m.mirror_name.as_str());
    push_lit(buf, ",\"percent\":");
    push_i32(buf, m.mirror_percent);
    push_lit(buf, ",\"port\":");
    push_i32(buf, m.mirror_port);
    push_lit(buf, "}],\"name\":");
    push_jstr(buf, m.primary_name.as_str());
    push_lit(buf, ",\"port\":");
    push_i32(buf, m.primary_port);
    push_lit(buf, "}}}");
    proof {
        assert(buf@ =~= old(buf)@ + ser_mirror(m@));
    }
}

/// Appends the canonical form of a desired ingress route.
fn push_ingress(buf: &mut Vec<char>, i: &IngressRouteChild)
    ensures
        final(buf)@ == old(buf)@ + ser_ingress(i@),
{
    push_lit(
        buf,
        "{\"apiVersion\":\"traefik.containo.us/v1alpha1\",\"kind\":\"IngressRoute\",\"metadata\":",
    );
    push_meta(buf, &i.meta);
    push_lit(buf, ",\"spec\":{\"entryPoints\":[");
    push_jstr(buf, i.entry_point.as_str());
    push_lit(buf, "],\"routes\":[{\"kind\":\"Rule\",\"match\":");
    push_jstr(buf, i.match_rule.as_str());
    push_lit(buf, ",\"services\":[{\"kind\":\"TraefikService\",\"name\":");
    push_jstr(buf, i.service_name.as_str());
    push_lit(buf, ",\"port\":");
    push_i32(buf, i.service_port);
    push_lit(buf, "}]}]}}");
    proof {
        assert(buf@ =~= old(buf)@ + ser_ingress(i@));
    }
}

/// Serializes a desired child into its canonical form.
pub fn serialize_child(c: &Child) -> (r: Vec<char>)
    ensures
        r@ == ser_child(c@),
{
    let mut buf: Vec<char> = Vec::new();
    match c {
        Child::Service(s) => push_service(&mut buf, s),
        Child::Workload(w) => push_workload(&mut buf, w),
        Child::Mirror(m) => push_mirror(&mut buf, m),
        Child::Ingress(i) => push_ingress(&mut buf, i),
    }
    buf
}

} // verus!
