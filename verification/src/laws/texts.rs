//! How values are written as text and read back, and what digests and hashes are made of.

use vstd::prelude::*;
use vstd::utf8::encode_utf8;

use crate::digest::{hex, hex_bytes, hex_char, hex_padded, little_endian, text_digest};
use crate::error::{cause_of, error_text, label_text, Error, FinalizerFailure};
use crate::restatecluster::objects::config_map_name;
use crate::restatecluster::quantity::{bytes_of, digit_run, unit};
use crate::restatecluster::resource::TrustedCACert;
use crate::restatecluster::statefulset::cert_refs;
use crate::restatedeployment::hash::{
    be4, be8, digit_letter, encoded, fnv1a, hash_input, identity, prefixed, twos_complement,
};
use crate::restatedeployment::resource::{InProcessTunnelParams, RestateDeployment};
use crate::restatekafkaintegration::config::config_digest;
use crate::text::{
    ascii_lower, begins_with, decimal, decimal_is_read_back, ends_with, int_text, integer, join,
    natural, occurs_in, same_ignoring_case, text_lt, without_suffix,
};
use crate::time::{moment, representable, rfc3339, rfc3339_time, span};

verus! {

/// An integer that was written is read back.
pub proof fn integers_are_read_back(i: int)
    ensures
        integer(int_text(i)) == Some(i),
        i >= 0 ==> int_text(i) == decimal(i as nat),
        i < 0 ==> int_text(i)[0] == '-',
{
    if i < 0 {
        decimal_is_read_back((-i) as nat);
        assert(int_text(i).skip(1) =~= decimal((-i) as nat));
    } else {
        decimal_is_read_back(i as nat);
    }
}

/// A number is written with as few digits as it takes.
pub proof fn numbers_have_no_leading_zero(n: nat)
    ensures
        n > 0 ==> decimal(n)[0] != '0',
        n == 0 ==> decimal(n) == seq!['0'],
        decimal(n).len() > 0,
    decreases n,
{
    if n >= 10 {
        numbers_have_no_leading_zero(n / 10);
        assert(decimal(n)[0] == decimal(n / 10)[0]);
    }
}

/// Texts are joined in their order, with the separator between each two.
pub proof fn how_texts_are_joined(parts: Seq<Seq<char>>, last: Seq<char>, separator: Seq<char>)
    ensures
        join(Seq::empty(), separator) == Seq::<char>::empty(),
        parts.len() == 0 ==> join(parts.push(last), separator) == last,
        parts.len() > 0 ==> join(parts.push(last), separator) == join(parts, separator) + separator
            + last,
{
    assert(parts.push(last).drop_last() =~= parts);
}

/// A text begins, ends or holds another where the letters are there.
pub proof fn where_a_part_stands(before: Seq<char>, part: Seq<char>, after: Seq<char>)
    ensures
        begins_with(part + after, part),
        ends_with(before + part, part),
        occurs_in(before + part + after, part),
        without_suffix(before + part, part) == Some(before),
{
    assert((part + after).take(part.len() as int) =~= part);
    assert((before + part).skip(before.len() as int) =~= part);
    assert((before + part).take(before.len() as int) =~= before);
    let whole = before + part + after;
    assert(whole.subrange(before.len() as int, (before.len() + part.len()) as int) =~= part);
}

/// What a text begins or ends with stands in it, letter for letter.
pub proof fn what_stands_in_a_text(s: Seq<char>, part: Seq<char>, i: int)
    requires
        0 <= i < part.len(),
    ensures
        begins_with(s, part) ==> part.len() <= s.len() && s[i] == part[i],
        ends_with(s, part) ==> part.len() <= s.len() && s[s.len() - part.len() + i] == part[i],
        without_suffix(s, part) is Some <==> ends_with(s, part),
        occurs_in(s, part) ==> exists|k: int|
            0 <= k <= s.len() - part.len() && #[trigger] s.subrange(k, k + part.len()) == part,
{
    if begins_with(s, part) {
        assert(s.take(part.len() as int)[i] == s[i]);
    }
    if ends_with(s, part) {
        assert(s.skip(s.len() - part.len())[i] == s[s.len() - part.len() + i]);
    }
}

/// Texts that differ in the case of letters are the same but for case, and no others are.
pub proof fn what_case_is(c: char)
    ensures
        'A' <= c <= 'Z' ==> ascii_lower(c) as u32 == c as u32 + 32,
        !('A' <= c <= 'Z') ==> ascii_lower(c) == c,
        forall|s: Seq<char>| #[trigger] same_ignoring_case(s, s),
{
}

/// The number that a digit of sixteen stands for.
pub open spec fn hex_digit(c: char) -> nat {
    if '0' <= c <= '9' {
        (c as u32 - 48) as nat
    } else if 'a' <= c <= 'f' {
        (c as u32 - 87) as nat
    } else {
        0
    }
}

/// The number that digits of sixteen stand for.
pub open spec fn hex_number(s: Seq<char>) -> nat
    decreases s.len(),
{
    if s.len() == 0 {
        0
    } else {
        hex_number(s.drop_last()) * 16 + hex_digit(s.last())
    }
}

/// A number that was written in digits of sixteen is read back.
pub proof fn hex_is_read_back(n: nat)
    ensures
        hex_number(hex(n)) == n,
        n > 0 ==> hex(n)[0] != '0',
        hex(n).len() > 0,
    decreases n,
{
    if n < 16 {
        assert(hex(n).drop_last() =~= Seq::empty());
        assert(hex_number(hex(n).drop_last()) == 0);
    } else {
        hex_is_read_back(n / 16);
        assert(hex(n).drop_last() =~= hex(n / 16));
        assert(hex(n)[0] == hex(n / 16)[0]);
    }
}

/// Bytes are written as two digits of sixteen each, in their order.
pub proof fn bytes_are_written_in_pairs(bytes: Seq<u8>, i: int)
    ensures
        hex_bytes(bytes).len() == 2 * bytes.len(),
        0 <= i < bytes.len() ==> hex_digit(hex_bytes(bytes)[2 * i]) * 16 + hex_digit(
            hex_bytes(bytes)[2 * i + 1],
        ) == bytes[i],
    decreases bytes.len(),
{
    if bytes.len() > 0 {
        bytes_are_written_in_pairs(bytes.drop_last(), i);
        let before = hex_bytes(bytes.drop_last());
        let b = bytes.last();
        assert(hex_bytes(bytes) == before.push(hex_char((b / 16) as nat)).push(
            hex_char((b % 16) as nat),
        ));
        if 0 <= i < bytes.len() - 1 {
            assert(hex_bytes(bytes)[2 * i] == before[2 * i]);
            assert(hex_bytes(bytes)[2 * i + 1] == before[2 * i + 1]);
        } else if i == bytes.len() - 1 {
            assert(hex_bytes(bytes)[2 * i] == hex_char((b / 16) as nat));
            assert(hex_bytes(bytes)[2 * i + 1] == hex_char((b % 16) as nat));
        }
    }
}

/// A number that is padded has that many digits, and its lowest ones are those of the number.
pub proof fn padding_keeps_the_number(n: nat, digits: nat)
    ensures
        hex_padded(n, digits).len() == digits,
        digits > 0 ==> hex_digit(hex_padded(n, digits).last()) == n % 16,
        digits > 0 ==> hex_padded(n, digits).drop_last() == hex_padded(
            n / 16,
            (digits - 1) as nat,
        ),
    decreases digits,
{
    if digits > 0 {
        padding_keeps_the_number(n / 16, (digits - 1) as nat);
        assert(hex_padded(n, digits).drop_last() =~= hex_padded(n / 16, (digits - 1) as nat));
    }
}

/// Of a number in bytes, the first byte counts for itself, and each further one for 256 times more.
pub proof fn the_first_byte_is_the_least(first: u8, rest: Seq<u8>)
    ensures
        little_endian(Seq::empty()) == 0,
        little_endian(seq![first] + rest) == first + 256 * little_endian(rest),
{
    assert((seq![first] + rest).skip(1) =~= rest);
}

/// A configuration is named by its first four bytes of digest, and recorded by its first eight.
pub proof fn what_names_a_configuration(config: Seq<char>)
    ensures
        config_map_name(config) == "restate-config-"@ + hex(
            little_endian(text_digest(config).take(4)),
        ),
        config_digest(config) == hex_padded(little_endian(text_digest(config).take(8)), 16),
        config_digest(config).len() == 16,
{
    padding_keeps_the_number(little_endian(text_digest(config).take(8)), 16);
}

/// The references to certificates are written one after the other, each set off by a comma.
pub proof fn how_certificates_are_referred_to(certs: Seq<TrustedCACert>, last: TrustedCACert)
    ensures
        cert_refs(Seq::empty()) == Seq::<char>::empty(),
        cert_refs(certs.push(last)) == cert_refs(certs) + last.secret_name@ + ":"@ + last.key@
            + ","@,
{
    assert(certs.push(last).drop_last() =~= certs);
}

/// A hash takes in one byte after the other.
pub proof fn how_a_hash_grows(bytes: Seq<u8>, b: u8)
    ensures
        fnv1a(Seq::empty()) == 0xcbf29ce484222325u64,
        fnv1a(bytes.push(b)) == ((fnv1a(bytes) ^ (b as u64)) as int * 0x100000001b3)
            % 0x1_0000_0000_0000_0000,
{
    assert(bytes.push(b).drop_last() =~= bytes);
}

/// Numbers are hashed by their bytes, the highest first.
pub proof fn the_highest_byte_comes_first(n: nat)
    ensures
        be4(n).len() == 4,
        be8(n).len() == 8,
        n < 0x1_0000_0000 ==> n == be4(n)[0] * 0x100_0000 + be4(n)[1] * 0x1_0000 + be4(n)[2] * 0x100
            + be4(n)[3],
        n < 0x1_0000_0000_0000_0000 ==> be8(n) == be4(n / 0x1_0000_0000) + be4(n % 0x1_0000_0000),
        n <= i32::MAX ==> twos_complement(n as i32) == n,
        0 < n <= 0x8000_0000 ==> twos_complement((-(n as int)) as i32) == 0x1_0000_0000 - n,
{
}

/// The hash of a template takes in the template, and what else makes a new version: the cluster, the
/// path, the version of HTTP, the tunnel and the collisions so far, each where there is one.
pub proof fn what_makes_a_new_version(
    rsd: RestateDeployment,
    pod_template: Seq<char>,
    tunnel: Option<InProcessTunnelParams>,
)
    ensures
        ({
            let cluster = match rsd.spec.restate.register.cluster {
                Some(c) => encode_utf8(c@),
                None => Seq::empty(),
            };
            let path = match rsd.spec.restate.service_path {
                Some(p) => encode_utf8(p@),
                None => Seq::empty(),
            };
            let http11 = if rsd.spec.restate.use_http11 == Some(true) {
                encode_utf8("use_http11"@)
            } else {
                Seq::empty()
            };
            let tunnelled = match tunnel {
                Some(t) => encode_utf8("tunnel_mode=in-process"@) + prefixed(t.environment_id@)
                    + prefixed(t.region@) + prefixed(t.signing_public_key@),
                None => Seq::empty(),
            };
            let collisions = if rsd.status is Some && rsd.status->0.collision_count is Some {
                be4(twos_complement(rsd.status->0.collision_count->0))
            } else {
                Seq::empty()
            };
            hash_input(rsd, pod_template, tunnel) == encode_utf8(pod_template) + cluster + path
                + http11 + tunnelled + collisions
        }),
        forall|t: Seq<char>| #[trigger] prefixed(t) == be8(encode_utf8(t).len()) + encode_utf8(t),
        rsd.metadata.uid matches Some(u) ==> identity(rsd) == u@,
        rsd.metadata.uid is None ==> identity(rsd) == rsd.metadata.any_name(),
{
}

/// Letters that no digit is.
pub open spec fn starts_no_digit(s: Seq<char>) -> bool {
    s.len() == 0 || !('0' <= s[0] <= '9')
}

/// A number, multiplied with itself that often.
pub open spec fn power_of(base: int, n: nat) -> int
    decreases n,
{
    if n == 0 {
        1
    } else {
        base * power_of(base, (n - 1) as nat)
    }
}

/// A quantity is a number of its unit: thousands for the units of ten, 1024s for those of two.
pub proof fn what_a_quantity_is(n: nat, power: nat)
    requires
        power <= 6,
    ensures
        ({
            let ten = seq![""@, "k"@, "M"@, "G"@, "T"@, "P"@, "E"@][power as int];
            let two = seq![""@, "Ki"@, "Mi"@, "Gi"@, "Ti"@, "Pi"@, "Ei"@][power as int];
            let thousands = power_of(1000, power);
            let kibis = power_of(1024, power);
            &&& n * thousands <= i64::MAX ==> bytes_of(decimal(n) + ten) == Some(n * thousands)
            &&& n * thousands > i64::MAX ==> bytes_of(decimal(n) + ten) is None
            &&& n * kibis <= i64::MAX ==> bytes_of(decimal(n) + two) == Some(n * kibis)
            &&& n * kibis > i64::MAX ==> bytes_of(decimal(n) + two) is None
        }),
{
    reveal_strlit("k");
    reveal_strlit("M");
    reveal_strlit("G");
    reveal_strlit("T");
    reveal_strlit("P");
    reveal_strlit("E");
    reveal_strlit("Ki");
    reveal_strlit("Mi");
    reveal_strlit("Gi");
    reveal_strlit("Ti");
    reveal_strlit("Pi");
    reveal_strlit("Ei");
    assert("k"@.len() == 1);
    assert("M"@.len() == 1);
    assert("G"@.len() == 1);
    assert("T"@.len() == 1);
    assert("P"@.len() == 1);
    assert("E"@.len() == 1);
    assert("Ki"@.len() == 2);
    assert("Mi"@.len() == 2);
    assert("Gi"@.len() == 2);
    assert("Ti"@.len() == 2);
    assert("Pi"@.len() == 2);
    assert("Ei"@.len() == 2);
    assert("k"@[0] == 'k');
    assert("M"@[0] == 'M');
    assert("G"@[0] == 'G');
    assert("T"@[0] == 'T');
    assert("P"@[0] == 'P');
    assert("E"@[0] == 'E');
    assert("Ki"@[0] == 'K');
    assert("Mi"@[0] == 'M');
    assert("Gi"@[0] == 'G');
    assert("Ti"@[0] == 'T');
    assert("Pi"@[0] == 'P');
    assert("Ei"@[0] == 'E');
    reveal_strlit("");
    let ten = seq![""@, "k"@, "M"@, "G"@, "T"@, "P"@, "E"@][power as int];
    let two = seq![""@, "Ki"@, "Mi"@, "Gi"@, "Ti"@, "Pi"@, "Ei"@][power as int];
    assert(""@.len() == 0);
    assert(starts_no_digit(ten));
    assert("Ki"@[0] == 'K' && "Mi"@[0] == 'M' && "Gi"@[0] == 'G' && "Ti"@[0] == 'T' && "Pi"@[0]
        == 'P' && "Ei"@[0] == 'E');
    assert(starts_no_digit(two));
    lemma_number_and_rest(n, ten);
    lemma_number_and_rest(n, two);
    reveal_with_fuel(power_of, 7);
    assert(unit(ten) == Some(power_of(1000, power)));
    assert(unit(two) == Some(power_of(1024, power)));
}

/// A text that is no number, or has another unit, is no quantity.
pub proof fn what_no_quantity_is(n: nat, suffix: Seq<char>)
    requires
        starts_no_digit(suffix),
        unit(suffix) is None,
    ensures
        bytes_of(decimal(n) + suffix) is None,
        bytes_of(suffix) is None,
{
    lemma_number_and_rest(n, suffix);
    assert(digit_run(suffix) == 0);
    assert(suffix.take(0) =~= Seq::empty());
}

proof fn lemma_number_and_rest(n: nat, suffix: Seq<char>)
    requires
        starts_no_digit(suffix),
    ensures
        digit_run(decimal(n) + suffix) == decimal(n).len(),
        (decimal(n) + suffix).take(decimal(n).len() as int) == decimal(n),
        (decimal(n) + suffix).skip(decimal(n).len() as int) == suffix,
        natural(decimal(n)) == Some(n),
{
    decimal_is_read_back(n);
    lemma_decimal_digits(n);
    lemma_run_and_rest(decimal(n), suffix);
    assert((decimal(n) + suffix).take(decimal(n).len() as int) =~= decimal(n));
    assert((decimal(n) + suffix).skip(decimal(n).len() as int) =~= suffix);
}

proof fn lemma_decimal_digits(n: nat)
    ensures
        forall|i: int| 0 <= i < decimal(n).len() ==> '0' <= #[trigger] decimal(n)[i] <= '9',
    decreases n,
{
    if n >= 10 {
        lemma_decimal_digits(n / 10);
        assert forall|i: int| 0 <= i < decimal(n).len() implies '0' <= #[trigger] decimal(n)[i]
            <= '9' by {
            if i < decimal(n).len() - 1 {
                assert(decimal(n)[i] == decimal(n / 10)[i]);
            }
        }
    }
}

proof fn lemma_run_and_rest(digits: Seq<char>, suffix: Seq<char>)
    requires
        forall|i: int| 0 <= i < digits.len() ==> '0' <= #[trigger] digits[i] <= '9',
        starts_no_digit(suffix),
    ensures
        digit_run(digits + suffix) == digits.len(),
    decreases digits.len(),
{
    if digits.len() == 0 {
        assert(digits + suffix =~= suffix);
    } else {
        let rest = digits.skip(1);
        assert forall|i: int| 0 <= i < rest.len() implies '0' <= #[trigger] rest[i] <= '9' by {
            assert(rest[i] == digits[i + 1]);
        }
        lemma_run_and_rest(rest, suffix);
        assert((digits + suffix).skip(1) =~= rest + suffix);
        assert((digits + suffix)[0] == digits[0]);
    }
}

/// An error says what went wrong, and of one that a finalizer wraps, what it wraps.
pub proof fn what_an_error_says(e: Error)
    ensures
        e matches Error::SerializationError(t) ==> error_text(e) == "SerializationError: "@ + t@,
        e matches Error::KubeError(f) ==> error_text(e) == "Kube Error: "@ + f.message@,
        e matches Error::NotReady { message, .. } ==> error_text(e)
            == "Cluster is not yet Ready: "@ + message@,
        e matches Error::DeploymentNotReady { message, .. } ==> error_text(e)
            == "RestateDeployment is not yet Ready: "@ + message@,
        e matches Error::ServiceNotReady { message, .. } ==> error_text(e)
            == "RestateService is not yet Ready: "@ + message@,
        e matches Error::RouteNotReady { message, .. } ==> error_text(e)
            == "Route is not yet Ready: "@ + message@,
        e matches Error::ConfigurationNotReady { message, .. } ==> error_text(e)
            == "Configuration is not yet Ready: "@ + message@,
        e matches Error::InvalidRestateConfig(t) ==> error_text(e)
            == "Invalid Restate configuration: "@ + t@,
        e matches Error::RestateCloudEnvironmentNotFound(t) ==> error_text(e)
            == "The RestateCloudEnvironment "@ + t@ + " does not exist"@,
        e matches Error::SecretNotFound(t) ==> error_text(e) == "The Secret "@ + t@
            + " does not exist"@,
        e matches Error::SecretKeyNotFound(k, s) ==> error_text(e) == "The Secret key "@ + k@
            + " in "@ + s@ + " does not exist"@,
        e matches Error::AdminCallFailed(t) ==> error_text(e)
            == "Failed to make Restate admin API call: "@ + t@,
        e matches Error::AdminCallRejected { status, body, .. } ==> error_text(e)
            == "Restate admin API call failed ("@ + status@ + "): "@ + body@,
        e matches Error::DeploymentNotLatest { message, .. } ==> error_text(e) == message@,
        e matches Error::DeletionDrainOverdue { blocked_by, timeout_seconds, .. } ==> error_text(e)
            == "Still waiting on "@ + blocked_by@ + " after the "@ + int_text(
            timeout_seconds as int,
        ) + "s drain timeout"@,
        e matches Error::ProvisioningFailed(t) ==> error_text(e) == "Provisioning failed: "@ + t@,
        e matches Error::InvalidUrl(t) ==> error_text(e) == t@,
        e matches Error::InvalidSigningKeyError(t) ==> error_text(e) == t@,
        e matches Error::FinalizerError(f) ==> match *f {
            FinalizerFailure::ApplyFailed(inner) => error_text(e)
                == "Finalizer Error: "@ + ("failed to apply object: "@ + error_text(inner))
                && cause_of(e) == cause_of(inner),
            FinalizerFailure::CleanupFailed(inner) => error_text(e)
                == "Finalizer Error: "@ + ("failed to clean up object: "@ + error_text(inner))
                && cause_of(e) == cause_of(inner),
            FinalizerFailure::Other(t) => error_text(e) == "Finalizer Error: "@ + t@ && cause_of(e)
                == e,
        },
        !(e is FinalizerError) ==> cause_of(e) == e,
{
}

/// An error is counted under its kind.
pub proof fn what_an_error_is_counted_under(e: Error)
    ensures
        e is SerializationError ==> label_text(e) == "SerializationError"@,
        e is KubeError ==> label_text(e) == "KubeError"@,
        e is FinalizerError ==> label_text(e) == "FinalizerError"@,
        e is NotReady ==> label_text(e) == "NotReady"@,
        e is DeploymentNotReady || e is ServiceNotReady ==> label_text(e) == "ServiceNotReady"@,
        e is RouteNotReady ==> label_text(e) == "RouteNotReady"@,
        e is ConfigurationNotReady ==> label_text(e) == "ConfigurationNotReady"@,
        e is InvalidRestateConfig ==> label_text(e) == "InvalidRestateConfig"@,
        e is RestateCloudEnvironmentNotFound ==> label_text(e)
            == "RestateCloudEnvironmentNotFound"@,
        e is SecretNotFound ==> label_text(e) == "SecretNotFound"@,
        e is SecretKeyNotFound ==> label_text(e) == "SecretKeyNotFound"@,
        e is InvalidBearerToken ==> label_text(e) == "InvalidBearerToken"@,
        e is InvalidSigningKeyError ==> label_text(e) == "InvalidSigningKeyError"@,
        e is AdminCallFailed ==> label_text(e) == "AdminCallFailed"@,
        e is AdminCallRejected ==> label_text(e) == "AdminCallRejected"@,
        e is HashCollision ==> label_text(e) == "HashCollision"@,
        e is DeploymentNotLatest ==> label_text(e) == "DeploymentNotLatest"@,
        e is DeploymentInUse ==> label_text(e) == "DeploymentInUse"@,
        e is DeletionDrainOverdue ==> label_text(e) == "DeletionDrainOverdue"@,
        e is DeploymentDraining ==> label_text(e) == "DeploymentDraining"@,
        e is ExpensiveOperationDeferred ==> label_text(e) == "ExpensiveOperationDeferred"@,
        e is NameConflict ==> label_text(e) == "NameConflict"@,
        e is Provisioned ==> label_text(e) == "Provisioned"@,
        e is ProvisioningFailed ==> label_text(e) == "ProvisioningFailed"@,
        e is InvalidUrl ==> label_text(e) == "InvalidUrl"@,
{
}

/// The digits of a name are letters that spell no word.
pub proof fn what_names_are_spelled_with(d: nat, n: nat)
    requires
        d < 10,
    ensures
        digit_letter(d) == "456789bcdf"@[d as int],
        n > 0 ==> encoded(n) == seq![digit_letter(n % 10)] + encoded(n / 10),
        encoded(0) == Seq::<char>::empty(),
{
    reveal_strlit("456789bcdf");
}

/// Texts are the same but for case where each two of their letters are.
pub proof fn which_texts_are_the_same_but_for_case(a: Seq<char>, b: Seq<char>, i: int)
    ensures
        same_ignoring_case(a, b) ==> a.len() == b.len(),
        same_ignoring_case(a, b) && 0 <= i < a.len() ==> ascii_lower(a[i]) == ascii_lower(b[i]),
        a.len() == b.len() && (forall|k: int|
            0 <= k < a.len() ==> ascii_lower(#[trigger] a[k]) == ascii_lower(b[k]))
            ==> same_ignoring_case(a, b),
{
}

/// A moment is one that a timestamp can hold; a leap second is the end of the second before it; and a
/// span is none where it would be negative.
pub proof fn what_times_are(text: Seq<char>, from: int, to: int)
    ensures
        representable(from) <==> -8_334_601_228_800 * 1_000_000_000 <= from < 8_210_266_876_800
            * 1_000_000_000,
        representable(from) ==> moment(from) == Some(from),
        !representable(from) ==> moment(from) is None,
        to >= from ==> span(from, to) == to - from,
        to < from ==> span(from, to) == 0,
        crate::time::rfc3339_moment(text) is None ==> rfc3339_time(text) is None,
        crate::time::rfc3339_moment(text) matches Some((s, n)) ==> {
            &&& n < 1_000_000_000 && representable(s * 1_000_000_000 + n) ==> rfc3339_time(text)
                == Some(s * 1_000_000_000 + n)
            &&& n >= 1_000_000_000 && representable(s * 1_000_000_000 + 999_999_999)
                ==> rfc3339_time(text) == Some(s * 1_000_000_000 + 999_999_999)
        },
        forall|t: int| #[trigger]
            rfc3339(t) == crate::time::rfc3339_text(
                (t / 1_000_000_000) as i64,
                (t % 1_000_000_000) as u32,
            ),
{
}

/// Texts are ordered by the first letter in which they differ, and one that another begins with comes
/// before it.
pub proof fn how_texts_are_ordered(
    common: Seq<char>,
    a: char,
    b: char,
    x: Seq<char>,
    y: Seq<char>,
)
    ensures
        a != b ==> (text_lt(common + seq![a] + x, common + seq![b] + y) <==> (a as u32) < (
        b as u32)),
        text_lt(common, common + seq![b] + y),
        !text_lt(common + seq![a] + x, common),
    decreases common.len(),
{
    let s = common + seq![a] + x;
    let t = common + seq![b] + y;
    if common.len() == 0 {
        assert(s[0] == a && t[0] == b);
    } else {
        let rest = common.skip(1);
        how_texts_are_ordered(rest, a, b, x, y);
        assert(s.skip(1) =~= rest + seq![a] + x);
        assert(t.skip(1) =~= rest + seq![b] + y);
        assert(s[0] == common[0] && t[0] == common[0]);
    }
}

} // verus!
