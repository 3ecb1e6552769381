//! The read probe: two mounts are read, and their digest and two numbers make
//! a result that is never positive.
use crate::digest::mount_digest;
use crate::digest::spec_mount_digest;
use crate::failure::handle_error;
use crate::failure::MountReadFailed;
use vstd::arithmetic::div_mod::lemma_fundamental_div_mod;
use vstd::arithmetic::div_mod::lemma_mod_multiples_vanish;
use vstd::arithmetic::div_mod::lemma_small_mod;
use vstd::prelude::*;

verus! {

/// The signed 32-bit number with the same low 32 bits as `x`.
pub open spec fn wrap32(x: int) -> int {
    let low = x % 0x1_0000_0000;
    if low < 0x8000_0000 {
        low
    } else {
        low - 0x1_0000_0000
    }
}

/// A sum on its way out: a positive one changes its sign, any other stays as
/// it is.
pub open spec fn spec_non_positive(sum: int) -> int {
    if sum > 0 {
        -sum
    } else {
        sum
    }
}

/// What the read probe returns once both mounts were read: the two numbers and
/// the digest are added on 32 bits, and a positive sum changes its sign.
pub open spec fn spec_combine(p0: u32, p1: i32, digest: u64) -> int {
    spec_non_positive(wrap32(p0 + p1 + digest))
}

/// The failure of the read probe, if it has one: the deploy mount is looked at
/// first, and the exec mount only where the deploy mount was read.
pub open spec fn spec_read_failure(deploy: Option<&[u8]>, exec: Option<&[u8]>) -> Option<
    MountReadFailed,
> {
    if deploy is None {
        Some(MountReadFailed::Deploy)
    } else if exec is None {
        Some(MountReadFailed::Exec)
    } else {
        None
    }
}

/// What the read probe returns, for each outcome of the two reads.
pub open spec fn spec_a(p0: u32, p1: i32, deploy: Option<&[u8]>, exec: Option<&[u8]>) -> int {
    match spec_read_failure(deploy, exec) {
        Some(e) => e.spec_code(),
        None => spec_combine(p0, p1, spec_mount_digest(deploy->0@, exec->0@)),
    }
}

/// A number of 32 bits that differs from `total` by a multiple of 2^32 is
/// `wrap32(total)`.
proof fn lemma_wrap32_unique(s: int, total: int, k: int)
    requires
        i32::MIN <= s <= i32::MAX,
        s == total + 0x1_0000_0000 * k,
    ensures
        s == wrap32(total),
{
    lemma_mod_multiples_vanish(k, total, 0x1_0000_0000);
    if s >= 0 {
        lemma_small_mod(s as nat, 0x1_0000_0000);
    } else {
        lemma_mod_multiples_vanish(1, s, 0x1_0000_0000);
        lemma_small_mod((s + 0x1_0000_0000) as nat, 0x1_0000_0000);
    }
}

/// Adds the two numbers and the digest on 32 bits, as the mounts were both read,
/// and negates the sum if it is positive.
pub fn combine(p0: u32, p1: i32, digest: u64) -> (r: i32)
    ensures
        r == spec_combine(p0, p1, digest),
        r <= 0,
{
    let first: i32 = #[verifier::truncate] (p0 as i32);
    let last: i32 = #[verifier::truncate] (digest as i32);
    let sum: i32 = first.wrapping_add(p1).wrapping_add(last);
    proof {
        let range: int = 0x1_0000_0000;
        assert(first == p0 || first == p0 - 0x1_0000_0000) by (bit_vector)
            requires
                first == p0 as i32,
        ;
        let low: u32 = digest as u32;
        assert(low == digest % 0x1_0000_0000 && (last == low || last == low - 0x1_0000_0000))
            by (bit_vector)
            requires
                low == digest as u32,
                last == digest as i32,
        ;
        lemma_fundamental_div_mod(digest as int, range);
        let kf: int = if first == p0 { 0 } else { -1 };
        let kl: int = (if last == low { 0int } else { -1int }) - (digest as int) / range;
        let part: int = first.wrapping_add(p1) as int;
        let k1: int = (part - (first + p1)) / range;
        let k2: int = (sum - (part + last)) / range;
        assert(part == first + p1 + range * k1);
        assert(sum == part + last + range * k2);
        assert(last == digest + range * kl) by (nonlinear_arith)
            requires
                digest == range * ((digest as int) / range) + low,
                last == low || last == low - range,
                kl == (if last == low { 0int } else { -1int }) - (digest as int) / range,
        ;
        assert(sum == (p0 + p1 + digest) + range * (kf + kl + k1 + k2)) by (nonlinear_arith)
            requires
                first == p0 + range * kf,
                last == digest + range * kl,
                part == first + p1 + range * k1,
                sum == part + last + range * k2,
        ;
        lemma_wrap32_unique(sum as int, p0 + p1 + digest, kf + kl + k1 + k2);
    }
    if sum > 0 {
        -sum
    } else {
        sum
    }
}

/// Says which read failed, if one did.
pub fn read_failure(deploy: Option<&[u8]>, exec: Option<&[u8]>) -> (failure: Option<
    MountReadFailed,
>)
    ensures
        failure == spec_read_failure(deploy, exec),
{
    if deploy.is_none() {
        Some(MountReadFailed::Deploy)
    } else if exec.is_none() {
        Some(MountReadFailed::Exec)
    } else {
        None
    }
}

/// The read probe. `deploy` and `exec` hold what reading `deployFile` and
/// `execFile` gave, `None` where the file is missing or cannot be read; `p1` is
/// the probe's second number, already cut to an integer.
///
/// A failed read gives the failure's number, the deploy mount going first. With
/// both mounts read, the result is made of the two numbers and the digest of
/// the bytes, and is never positive.
pub fn a(p0: u32, p1: i32, deploy: Option<&[u8]>, exec: Option<&[u8]>) -> (r: i32)
    ensures
        r == spec_a(p0, p1, deploy, exec),
        deploy is None ==> r == -1,
        deploy is Some && exec is None ==> r == -2,
        deploy is Some && exec is Some ==> r <= 0,
        r <= 0,
{
    match deploy {
        None => handle_error(MountReadFailed::Deploy),
        Some(dbytes) => match exec {
            None => handle_error(MountReadFailed::Exec),
            Some(ebytes) => combine(p0, p1, mount_digest(dbytes, ebytes)),
        },
    }
}

} // verus!
