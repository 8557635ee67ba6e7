//! The hash that names a version of a deployment.

use vstd::prelude::*;
use vstd::string::*;
use vstd::utf8::{encode_utf8, encode_utf8_decode_utf8};
use std::hash::Hasher;

use crate::restatedeployment::resource::{InProcessTunnelParams, RestateDeployment};
use crate::text::opt_text;
use crate::time::{secs, Duration};

verus! {

/// The FNV-1a hash of a sequence of bytes.
pub open spec fn fnv1a(bytes: Seq<u8>) -> u64
    decreases bytes.len(),
{
    if bytes.len() == 0 {
        0xcbf29ce484222325u64
    } else {
        (((fnv1a(bytes.drop_last()) ^ (bytes.last() as u64)) * 0x100000001b3u64)
            % 0x1_0000_0000_0000_0000) as u64
    }
}

/// The hash of a text: that of its bytes and of one more, which occurs in no text and so ends it.
pub open spec fn text_hash(text: Seq<char>) -> u64 {
    fnv1a(encode_utf8(text).push(0xff))
}

/// `fnv::FnvHasher`: the hash of the bytes written to a fresh hasher, which takes them one by one:
/// each is mixed in by an exclusive or and a multiplication with the FNV prime, modulo two to the
/// power of 64.
#[verifier::external_body]
fn fnv_hash(bytes: &Vec<u8>) -> (r: u64)
    ensures
        r == fnv1a(bytes@),
{
    let mut hasher = fnv::FnvHasher::default();
    hasher.write(bytes);
    hasher.finish()
}

/// The hash of a text. Its bytes are written as the `Hash` impl of `str` writes them.
fn fnv_text_hash(text: &str) -> (r: u64)
    ensures
        r == text_hash(text@),
{
    let mut bytes: Vec<u8> = Vec::new();
    push_text(&mut bytes, text);
    bytes.push(0xff);
    proof {
        assert(bytes@ =~= encode_utf8(text@).push(0xff));
    }
    fnv_hash(&bytes)
}

/// The letter or digit that stands for a decimal digit. Vowels are left out, so that no word comes
/// of it.
pub open spec fn digit_letter(d: nat) -> char {
    if d == 0 {
        '4'
    } else if d == 1 {
        '5'
    } else if d == 2 {
        '6'
    } else if d == 3 {
        '7'
    } else if d == 4 {
        '8'
    } else if d == 5 {
        '9'
    } else if d == 6 {
        'b'
    } else if d == 7 {
        'c'
    } else if d == 8 {
        'd'
    } else {
        'f'
    }
}

/// A number as Kubernetes writes it in names: its decimal digits, the last first, each by its
/// letter.
pub open spec fn encoded(n: nat) -> Seq<char>
    decreases n,
{
    if n == 0 {
        Seq::empty()
    } else {
        seq![digit_letter(n % 10)] + encoded(n / 10)
    }
}

/// The digit of a letter.
pub open spec fn letter_digit(c: char) -> nat {
    if c == '4' {
        0
    } else if c == '5' {
        1
    } else if c == '6' {
        2
    } else if c == '7' {
        3
    } else if c == '8' {
        4
    } else if c == '9' {
        5
    } else if c == 'b' {
        6
    } else if c == 'c' {
        7
    } else if c == 'd' {
        8
    } else {
        9
    }
}

/// The number that a text of letters stands for.
pub open spec fn decoded(s: Seq<char>) -> nat
    decreases s.len(),
{
    if s.len() == 0 {
        0
    } else {
        letter_digit(s[0]) + 10 * decoded(s.skip(1))
    }
}

proof fn lemma_decode(n: nat)
    ensures
        decoded(encoded(n)) == n,
    decreases n,
{
    if n > 0 {
        lemma_decode(n / 10);
        assert(encoded(n)[0] == digit_letter(n % 10));
        assert(encoded(n).skip(1) =~= encoded(n / 10));
        assert(letter_digit(digit_letter(n % 10)) == n % 10);
    }
}

/// Different hashes are written differently.
pub proof fn encoding_is_injective(a: nat, b: nat)
    ensures
        encoded(a) == encoded(b) ==> a == b,
{
    lemma_decode(a);
    lemma_decode(b);
}

fn letter(d: u32) -> (r: char)
    requires
        d < 10,
    ensures
        r == digit_letter(d as nat),
{
    if d == 0 {
        '4'
    } else if d == 1 {
        '5'
    } else if d == 2 {
        '6'
    } else if d == 3 {
        '7'
    } else if d == 4 {
        '8'
    } else if d == 5 {
        '9'
    } else if d == 6 {
        'b'
    } else if d == 7 {
        'c'
    } else if d == 8 {
        'd'
    } else {
        'f'
    }
}

/// Writes a number as Kubernetes does in names.
pub fn safe_encode_u32(val: u32) -> (r: String)
    ensures
        r@ == encoded(val as nat),
{
    let mut rest: u32 = val;
    let mut out: String = String::new();
    proof {
        assert(out@ + encoded(val as nat) =~= encoded(val as nat));
    }
    while rest > 0
        invariant
            out@ + encoded(rest as nat) == encoded(val as nat),
        decreases rest,
    {
        let ghost before = out@;
        out.push(letter(rest % 10));
        proof {
            assert(out@ + encoded((rest / 10) as nat) =~= before + encoded(rest as nat));
        }
        rest = rest / 10;
    }
    proof {
        assert(out@ + encoded(0) =~= out@);
    }
    out
}

/// A number in big-endian order, in eight bytes.
pub open spec fn be8(n: nat) -> Seq<u8> {
    be4((n / 0x1_0000_0000) % 0x1_0000_0000) + be4(n % 0x1_0000_0000)
}

/// A number in big-endian order, in four bytes.
pub open spec fn be4(n: nat) -> Seq<u8> {
    seq![
        ((n / 0x100_0000) % 0x100) as u8,
        ((n / 0x1_0000) % 0x100) as u8,
        ((n / 0x100) % 0x100) as u8,
        (n % 0x100) as u8,
    ]
}

/// A count in two's complement.
pub open spec fn twos_complement(c: i32) -> nat {
    if c >= 0 {
        c as nat
    } else {
        (c + 0x1_0000_0000) as nat
    }
}

/// A value with its length in front, so that two values cannot run into each other.
pub open spec fn prefixed(value: Seq<char>) -> Seq<u8> {
    be8(encode_utf8(value).len()) + encode_utf8(value)
}

/// What an in-process tunnel adds to the hash.
pub open spec fn tunnel_input(p: InProcessTunnelParams) -> Seq<u8> {
    encode_utf8("tunnel_mode=in-process"@) + prefixed(p.environment_id@) + prefixed(p.region@)
        + prefixed(p.signing_public_key@)
}

/// The bytes of an optional text.
pub open spec fn opt_bytes(s: Option<Seq<char>>) -> Seq<u8> {
    match s {
        Some(s) => encode_utf8(s),
        None => Seq::empty(),
    }
}

/// What the hash of a version goes by: the pod template, and everything else that is written into
/// the pods or the registered address. What is not set adds nothing, so that a new setting leaves
/// existing deployments their hashes.
pub open spec fn hash_input(
    rsd: RestateDeployment,
    pod_template: Seq<char>,
    tunnel: Option<InProcessTunnelParams>,
) -> Seq<u8> {
    encode_utf8(pod_template) + opt_bytes(opt_text(rsd.spec.restate.register.cluster)) + opt_bytes(
        opt_text(rsd.spec.restate.service_path),
    ) + http11_input(rsd) + opt_tunnel_input(tunnel) + collision_input(rsd)
}

/// The hash of a version: the first four bytes of the FNV hash, as Kubernetes writes numbers in
/// names.
pub open spec fn template_hash(
    rsd: RestateDeployment,
    pod_template: Seq<char>,
    tunnel: Option<InProcessTunnelParams>,
) -> Seq<char> {
    encoded((fnv1a(hash_input(rsd, pod_template, tunnel)) / 0x1_0000_0000) as nat)
}

fn push_all(out: &mut Vec<u8>, bytes: &[u8])
    ensures
        final(out)@ == old(out)@ + bytes@,
{
    let ghost before = out@;
    let mut i: usize = 0;
    proof {
        assert(before + bytes@.take(0) =~= before);
    }
    while i < bytes.len()
        invariant
            i <= bytes.len(),
            out@ == before + bytes@.take(i as int),
        decreases bytes.len() - i,
    {
        out.push(bytes[i]);
        proof {
            assert(before + bytes@.take(i + 1) =~= (before + bytes@.take(i as int)).push(
                bytes@[i as int],
            ));
        }
        i = i + 1;
    }
    proof {
        assert(bytes@.take(bytes@.len() as int) =~= bytes@);
    }
}

fn push_text(out: &mut Vec<u8>, text: &str)
    ensures
        final(out)@ == old(out)@ + encode_utf8(text@),
{
    push_all(out, text.as_bytes());
}

fn push_be4(out: &mut Vec<u8>, n: u64)
    requires
        n < 0x1_0000_0000,
    ensures
        final(out)@ == old(out)@ + be4(n as nat),
{
    let ghost before = out@;
    out.push(((n / 0x100_0000) % 0x100) as u8);
    out.push(((n / 0x1_0000) % 0x100) as u8);
    out.push(((n / 0x100) % 0x100) as u8);
    out.push((n % 0x100) as u8);
    proof {
        assert(out@ =~= before + be4(n as nat));
    }
}

fn push_prefixed(out: &mut Vec<u8>, value: &str)
    ensures
        final(out)@ == old(out)@ + prefixed(value@),
{
    let ghost before = out@;
    let bytes = value.as_bytes();
    let n: u64 = bytes.len() as u64;
    push_be4(out, n / 0x1_0000_0000);
    push_be4(out, n % 0x1_0000_0000);
    push_all(out, bytes);
    proof {
        assert((n / 0x1_0000_0000) % 0x1_0000_0000 == n / 0x1_0000_0000);
        assert(out@ =~= before + prefixed(value@));
    }
}

fn push_tunnel(out: &mut Vec<u8>, p: &InProcessTunnelParams)
    ensures
        final(out)@ == old(out)@ + tunnel_input(*p),
{
    let ghost before = out@;
    push_text(out, "tunnel_mode=in-process");
    push_prefixed(out, p.environment_id.as_str());
    push_prefixed(out, p.region.as_str());
    push_prefixed(out, p.signing_public_key.as_str());
    proof {
        let mark = encode_utf8("tunnel_mode=in-process"@);
        let (x, y, z) = (
            prefixed(p.environment_id@),
            prefixed(p.region@),
            prefixed(p.signing_public_key@),
        );
        assert(before + mark + x + y + z =~= before + (mark + x + y + z)) by {
            lemma_regroup(before, mark, x, y, z, Seq::empty());
            assert(before + (mark + x + y + z) + Seq::<u8>::empty() =~= before + (mark + x + y + z));
            assert((before + mark) + (x + (y + (z + Seq::<u8>::empty()))) =~= before + mark + x + y
                + z);
        }
    }
}

fn push_opt_text(out: &mut Vec<u8>, text: &Option<String>)
    ensures
        final(out)@ == old(out)@ + opt_bytes(opt_text(*text)),
{
    let ghost before = out@;
    match text {
        Some(t) => push_text(out, t.as_str()),
        None => {
            proof {
                assert(before + Seq::<u8>::empty() =~= before);
            }
        },
    }
}

/// What an in-process tunnel adds to the hash, where there is one.
pub open spec fn opt_tunnel_input(tunnel: Option<InProcessTunnelParams>) -> Seq<u8> {
    match tunnel {
        Some(p) => tunnel_input(p),
        None => Seq::empty(),
    }
}

/// What the collision count adds to the hash, where there is one.
pub open spec fn collision_input(rsd: RestateDeployment) -> Seq<u8> {
    match rsd.status {
        Some(s) => match s.collision_count {
            Some(c) => be4(twos_complement(c)),
            None => Seq::empty(),
        },
        None => Seq::empty(),
    }
}

/// What the use of HTTP/1.1 adds to the hash.
pub open spec fn http11_input(rsd: RestateDeployment) -> Seq<u8> {
    if rsd.spec.restate.use_http11 == Some(true) {
        encode_utf8("use_http11"@)
    } else {
        Seq::empty()
    }
}

fn push_collisions(out: &mut Vec<u8>, rsd: &RestateDeployment)
    ensures
        final(out)@ == old(out)@ + collision_input(*rsd),
{
    let ghost before = out@;
    let count: Option<i32> = match &rsd.status {
        Some(s) => s.collision_count,
        None => None,
    };
    match count {
        Some(n) => {
            let v: u64 = if n >= 0 {
                n as u64
            } else {
                (n as i64 + 0x1_0000_0000) as u64
            };
            push_be4(out, v);
        },
        None => {
            proof {
                assert(before + Seq::<u8>::empty() =~= before);
            }
        },
    }
}

/// Hashes a pod template, to name its version.
pub fn generate_pod_template_hash(
    rsd: &RestateDeployment,
    pod_template: &str,
    in_process_tunnel: Option<&InProcessTunnelParams>,
) -> (r: String)
    ensures
        r@ == template_hash(
            *rsd,
            pod_template@,
            match in_process_tunnel {
                Some(p) => Some(*p),
                None => None,
            },
        ),
{
    let mut input: Vec<u8> = Vec::new();
    push_text(&mut input, pod_template);
    proof {
        assert(input@ =~= encode_utf8(pod_template@));
    }
    push_opt_text(&mut input, &rsd.spec.restate.register.cluster);
    push_opt_text(&mut input, &rsd.spec.restate.service_path);
    let ghost c = input@;
    match rsd.spec.restate.use_http11 {
        Some(true) => push_text(&mut input, "use_http11"),
        _ => {
            proof {
                assert(c + Seq::<u8>::empty() =~= c);
            }
        },
    }
    let ghost d = input@;
    match in_process_tunnel {
        Some(p) => push_tunnel(&mut input, p),
        None => {
            proof {
                assert(d + Seq::<u8>::empty() =~= d);
            }
        },
    }
    push_collisions(&mut input, rsd);
    let h: u64 = fnv_hash(&input);
    safe_encode_u32((h / 0x1_0000_0000) as u32)
}

proof fn lemma_be8_injective(a: nat, b: nat)
    requires
        a < 0x1_0000_0000_0000_0000,
        b < 0x1_0000_0000_0000_0000,
        be8(a) == be8(b),
    ensures
        a == b,
{
    let (ah, al) = ((a / 0x1_0000_0000) % 0x1_0000_0000, a % 0x1_0000_0000);
    let (bh, bl) = ((b / 0x1_0000_0000) % 0x1_0000_0000, b % 0x1_0000_0000);
    lemma_fours(be4(ah), be4(al), be4(bh), be4(bl));
    lemma_be4_injective(ah, bh);
    lemma_be4_injective(al, bl);
    assert(a == 0x1_0000_0000 * ah + al);
    assert(b == 0x1_0000_0000 * bh + bl);
}

proof fn lemma_fours(ah: Seq<u8>, al: Seq<u8>, bh: Seq<u8>, bl: Seq<u8>)
    requires
        ah.len() == 4,
        bh.len() == 4,
        ah + al == bh + bl,
    ensures
        ah == bh,
        al == bl,
{
    assert((ah + al).take(4) =~= ah);
    assert((bh + bl).take(4) =~= bh);
    assert((ah + al).skip(4) =~= al);
    assert((bh + bl).skip(4) =~= bl);
}

proof fn lemma_be4_injective(a: nat, b: nat)
    requires
        a < 0x1_0000_0000,
        b < 0x1_0000_0000,
        be4(a) == be4(b),
    ensures
        a == b,
{
    assert(be4(a)[0] == be4(b)[0]);
    assert(be4(a)[1] == be4(b)[1]);
    assert(be4(a)[2] == be4(b)[2]);
    assert(be4(a)[3] == be4(b)[3]);
    assert(a % 0x100 == b % 0x100);
    assert((a / 0x100) % 0x100 == (b / 0x100) % 0x100);
    assert((a / 0x1_0000) % 0x100 == (b / 0x1_0000) % 0x100);
    assert((a / 0x100_0000) % 0x100 == (b / 0x100_0000) % 0x100);
    assert(a == a % 0x100 + 0x100 * ((a / 0x100) % 0x100) + 0x1_0000 * ((a / 0x1_0000) % 0x100)
        + 0x100_0000 * ((a / 0x100_0000) % 0x100));
    assert(b == b % 0x100 + 0x100 * ((b / 0x100) % 0x100) + 0x1_0000 * ((b / 0x1_0000) % 0x100)
        + 0x100_0000 * ((b / 0x100_0000) % 0x100));
}

proof fn lemma_prefixed_splits(a: Seq<char>, b: Seq<char>, x: Seq<u8>, y: Seq<u8>)
    requires
        encode_utf8(a).len() < 0x1_0000_0000_0000_0000,
        encode_utf8(b).len() < 0x1_0000_0000_0000_0000,
        prefixed(a) + x == prefixed(b) + y,
    ensures
        a == b,
        x == y,
{
    let l = prefixed(a) + x;
    let r = prefixed(b) + y;
    assert(l.take(8) =~= be8(encode_utf8(a).len()));
    assert(r.take(8) =~= be8(encode_utf8(b).len()));
    lemma_be8_injective(encode_utf8(a).len(), encode_utf8(b).len());
    let n = encode_utf8(a).len() as int;
    assert(l.subrange(8, 8 + n) =~= encode_utf8(a));
    assert(r.subrange(8, 8 + n) =~= encode_utf8(b));
    assert(l.skip(8 + n) =~= x);
    assert(r.skip(8 + n) =~= y);
    encode_utf8_decode_utf8(a);
    encode_utf8_decode_utf8(b);
}

/// Two different in-process tunnels never give the hash the same input, whatever else it goes by.
pub proof fn tunnel_values_cannot_run_together(
    rsd: RestateDeployment,
    pod_template: Seq<char>,
    p: InProcessTunnelParams,
    q: InProcessTunnelParams,
)
    requires
        encode_utf8(p.environment_id@).len() <= u64::MAX,
        encode_utf8(p.region@).len() <= u64::MAX,
        encode_utf8(p.signing_public_key@).len() <= u64::MAX,
        encode_utf8(q.environment_id@).len() <= u64::MAX,
        encode_utf8(q.region@).len() <= u64::MAX,
        encode_utf8(q.signing_public_key@).len() <= u64::MAX,
        hash_input(rsd, pod_template, Some(p)) == hash_input(rsd, pod_template, Some(q)),
    ensures
        p.environment_id@ == q.environment_id@,
        p.region@ == q.region@,
        p.signing_public_key@ == q.signing_public_key@,
{
    let front = encode_utf8(pod_template) + opt_bytes(
        opt_text(rsd.spec.restate.register.cluster),
    ) + opt_bytes(opt_text(rsd.spec.restate.service_path)) + http11_input(rsd);
    let back = collision_input(rsd);
    let mark = encode_utf8("tunnel_mode=in-process"@);
    let (p1, p2, p3) = (
        prefixed(p.environment_id@),
        prefixed(p.region@),
        prefixed(p.signing_public_key@),
    );
    let (q1, q2, q3) = (
        prefixed(q.environment_id@),
        prefixed(q.region@),
        prefixed(q.signing_public_key@),
    );
    lemma_regroup(front, mark, p1, p2, p3, back);
    lemma_regroup(front, mark, q1, q2, q3, back);
    lemma_cancel(front + mark, p1 + (p2 + (p3 + back)), q1 + (q2 + (q3 + back)));
    lemma_prefixed_splits(
        p.environment_id@,
        q.environment_id@,
        p2 + (p3 + back),
        q2 + (q3 + back),
    );
    lemma_prefixed_splits(p.region@, q.region@, p3 + back, q3 + back);
    lemma_prefixed_splits(p.signing_public_key@, q.signing_public_key@, back, back);
}

proof fn lemma_regroup(
    front: Seq<u8>,
    mark: Seq<u8>,
    x: Seq<u8>,
    y: Seq<u8>,
    z: Seq<u8>,
    back: Seq<u8>,
)
    ensures
        front + (mark + x + y + z) + back == (front + mark) + (x + (y + (z + back))),
{
    assert(front + (mark + x + y + z) + back =~= (front + mark) + (x + (y + (z + back))));
}

proof fn lemma_cancel(head: Seq<u8>, x: Seq<u8>, y: Seq<u8>)
    requires
        head + x == head + y,
    ensures
        x == y,
{
    assert((head + x).skip(head.len() as int) =~= x);
    assert((head + y).skip(head.len() as int) =~= y);
}

/// Without an in-process tunnel the hash goes by everything else alone, so that deployments that do
/// not use one keep their hashes.
pub proof fn hash_without_tunnel_goes_by_the_rest(rsd: RestateDeployment, pod_template: Seq<char>)
    ensures
        hash_input(rsd, pod_template, None) == encode_utf8(pod_template) + opt_bytes(
            opt_text(rsd.spec.restate.register.cluster),
        ) + opt_bytes(opt_text(rsd.spec.restate.service_path)) + http11_input(rsd)
            + collision_input(rsd),
{
    assert(hash_input(rsd, pod_template, None) =~= encode_utf8(pod_template) + opt_bytes(
        opt_text(rsd.spec.restate.register.cluster),
    ) + opt_bytes(opt_text(rsd.spec.restate.service_path)) + http11_input(rsd) + collision_input(
        rsd,
    ));
}

/// Seconds after which a healthy deployment is looked at again, before jitter.
pub const HEALTHY_REQUEUE_SECONDS: u64 = 300;

/// Seconds of the longest jitter on it.
pub const HEALTHY_JITTER_SECONDS: u64 = 60;

/// What identifies a deployment: its uid, or its name.
pub open spec fn identity(rsd: RestateDeployment) -> Seq<char> {
    match rsd.metadata.uid {
        Some(u) => u@,
        None => rsd.metadata.any_name(),
    }
}

/// How long until a healthy deployment with this identity hash is looked at again.
pub open spec fn healthy_requeue(hash: u64) -> int {
    secs(HEALTHY_REQUEUE_SECONDS + hash % 61)
}

/// How long until a healthy deployment is looked at again: five minutes and up to one more, by the
/// hash of its identity, so that a restart of the operator does not align all deployments.
pub fn healthy_requeue_after(rsd: &RestateDeployment) -> (r: Duration)
    ensures
        r@ == healthy_requeue(text_hash(identity(*rsd))),
{
    let id = match &rsd.metadata.uid {
        Some(u) => u.clone(),
        None => rsd.metadata.name_any(),
    };
    requeue_for_hash(fnv_text_hash(id.as_str()))
}

/// How long until a healthy deployment with this identity hash is looked at again.
pub fn requeue_for_hash(hash: u64) -> (r: Duration)
    ensures
        r@ == healthy_requeue(hash),
        secs(HEALTHY_REQUEUE_SECONDS as int) <= r@ <= secs(
            (HEALTHY_REQUEUE_SECONDS + HEALTHY_JITTER_SECONDS) as int,
        ),
{
    Duration::from_secs(HEALTHY_REQUEUE_SECONDS + hash % (HEALTHY_JITTER_SECONDS + 1))
}

} // verus!
