//! Resolution of Kubos platform target identifiers to compiler target
//! triplets.
//!
//! The set of supported identifiers is a small fixed table. Resolving an
//! identifier outside the table is a fatal input error reported as a typed
//! error value, never a silent fallback.

use crate::strutil::str_eq;
use vstd::prelude::*;

verus! {

/// The identifier of the native x86 target, used when no target is requested.
pub open spec fn x86_id() -> Seq<char> {
    "x86-linux-native"@
}

/// The identifier of the Beaglebone Black target.
pub open spec fn beaglebone_id() -> Seq<char> {
    "kubos-linux-beaglebone-gcc"@
}

/// The identifier of the Pumpkin MBM2 target.
pub open spec fn pumpkin_id() -> Seq<char> {
    "kubos-linux-pumpkin-mbm2-gcc"@
}

/// The identifier of the ISIS iOBC target.
pub open spec fn isis_id() -> Seq<char> {
    "kubos-linux-isis-gcc"@
}

/// The supported identifiers, in the order they are reported to the user.
pub open spec fn supported_ids() -> Seq<Seq<char>> {
    seq![x86_id(), beaglebone_id(), pumpkin_id(), isis_id()]
}

/// Whether a target identifier is one of the supported ones.
pub open spec fn is_supported_target(t: Seq<char>) -> bool {
    t == x86_id() || t == beaglebone_id() || t == pumpkin_id() || t == isis_id()
}

/// The compiler triplet that a supported identifier resolves to.
pub open spec fn triplet_for(t: Seq<char>) -> Seq<char> {
    if t == x86_id() {
        "x86_64-unknown-linux-gnu"@
    } else if t == beaglebone_id() {
        "arm-unknown-linux-gnueabihf"@
    } else if t == pumpkin_id() {
        "arm-unknown-linux-gnueabihf"@
    } else if t == isis_id() {
        "armv5te-unknown-linux-gnueabi"@
    } else {
        Seq::empty()
    }
}

/// An identifier is supported exactly when it stands in the reported list.
pub proof fn lemma_supported_iff_listed(t: Seq<char>)
    ensures
        is_supported_target(t) <==> exists|i: int|
            0 <= i < supported_ids().len() && supported_ids()[i] == t,
{
    if is_supported_target(t) {
        if t == x86_id() {
            assert(supported_ids()[0] == t);
        } else if t == beaglebone_id() {
            assert(supported_ids()[1] == t);
        } else if t == pumpkin_id() {
            assert(supported_ids()[2] == t);
        } else {
            assert(supported_ids()[3] == t);
        }
    }
}

/// The error returned when a target identifier is not in the supported set.
#[derive(Debug)]
pub struct UnsupportedTarget {
    /// The identifier that could not be resolved.
    pub requested: String,
}

impl UnsupportedTarget {
    /// The user-facing description of the error, naming the rejected
    /// identifier and listing every supported one.
    pub fn message(&self) -> (r: String)
        ensures
            r@ == "Target '"@ + self.requested@
                + "' not supported for cargo/yotta builds\nCurrently supported targets are:\nx86-linux-native\nkubos-linux-beaglebone-gcc\nkubos-linux-pumpkin-mbm2-gcc\nkubos-linux-isis-gcc"@,
    {
        let head = "Target '".to_owned();
        let with_target = head.concat(self.requested.as_str());
        with_target.concat(
            "' not supported for cargo/yotta builds\nCurrently supported targets are:\nx86-linux-native\nkubos-linux-beaglebone-gcc\nkubos-linux-pumpkin-mbm2-gcc\nkubos-linux-isis-gcc",
        )
    }
}

/// Resolve a Kubos target identifier to its compiler target triplet.
///
/// Every supported identifier resolves to exactly one triplet; any other
/// identifier is rejected with an error carrying the rejected name.
pub fn target_converter(kubos_target: &str) -> (r: Result<String, UnsupportedTarget>)
    ensures
        is_supported_target(kubos_target@) ==> (r matches Ok(s) && s@ == triplet_for(
            kubos_target@,
        )),
        !is_supported_target(kubos_target@) ==> (r matches Err(e) && e.requested@
            == kubos_target@),
{
    if str_eq(kubos_target, "x86-linux-native") {
        Ok("x86_64-unknown-linux-gnu".to_owned())
    } else if str_eq(kubos_target, "kubos-linux-beaglebone-gcc") {
        Ok("arm-unknown-linux-gnueabihf".to_owned())
    } else if str_eq(kubos_target, "kubos-linux-pumpkin-mbm2-gcc") {
        Ok("arm-unknown-linux-gnueabihf".to_owned())
    } else if str_eq(kubos_target, "kubos-linux-isis-gcc") {
        Ok("armv5te-unknown-linux-gnueabi".to_owned())
    } else {
        Err(UnsupportedTarget { requested: kubos_target.to_owned() })
    }
}

/// The target identifier an invocation uses: the requested one when the
/// target flag was given, the native x86 identifier otherwise.
pub fn chosen_target(requested: Option<String>) -> (r: String)
    ensures
        match requested {
            Some(t) => r == t,
            None => r@ == x86_id(),
        },
{
    match requested {
        Some(t) => t,
        None => "x86-linux-native".to_owned(),
    }
}

/// The supported target identifiers, in reporting order.
pub fn supported_targets() -> (r: Vec<String>)
    ensures
        r.deep_view() == supported_ids(),
{
    let mut v: Vec<String> = Vec::new();
    v.push("x86-linux-native".to_owned());
    v.push("kubos-linux-beaglebone-gcc".to_owned());
    v.push("kubos-linux-pumpkin-mbm2-gcc".to_owned());
    v.push("kubos-linux-isis-gcc".to_owned());
    assert(v.deep_view() =~= supported_ids());
    v
}

} // verus!
