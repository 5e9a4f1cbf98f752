//! What a user may be allowed to do.

use std::ops::BitOr;
use vstd::prelude::*;

use crate::requests::Request;
use crate::text::starts_with;

verus! {

/// A thing that a user may be allowed to do, one bit each.
#[derive(Debug, Clone, Copy, PartialEq, Eq, Structural)]
pub enum AuthFlags {
    ViewBelgradeDocuments,
    EditUsers,
}

/// The bit of a flag.
pub open spec fn flag_bit(flag: AuthFlags) -> u64 {
    match flag {
        AuthFlags::ViewBelgradeDocuments => 0x1,
        AuthFlags::EditUsers => 0x2,
    }
}

impl From<AuthFlags> for u64 {
    fn from(value: AuthFlags) -> (bit: u64) {
        match value {
            AuthFlags::ViewBelgradeDocuments => 0x1,
            AuthFlags::EditUsers => 0x2,
        }
    }
}

impl vstd::std_specs::convert::FromSpecImpl<AuthFlags> for u64 {
    open spec fn obeys_from_spec() -> bool {
        true
    }

    open spec fn from_spec(value: AuthFlags) -> u64 {
        flag_bit(value)
    }
}

impl BitOr for AuthFlags {
    type Output = u64;

    fn bitor(self, rhs: Self) -> (bits: u64) {
        u64::from(self) | u64::from(rhs)
    }
}

impl vstd::std_specs::ops::BitOrSpecImpl for AuthFlags {
    open spec fn obeys_bitor_spec() -> bool {
        true
    }

    open spec fn bitor_req(self, rhs: Self) -> bool {
        true
    }

    open spec fn bitor_spec(self, rhs: Self) -> u64 {
        flag_bit(self) | flag_bit(rhs)
    }
}

/// Two flags together hold the bit of each, and no other bit.
pub proof fn law_flags_together(first: AuthFlags, second: AuthFlags)
    ensures
        (flag_bit(first) | flag_bit(second)) & flag_bit(first) == flag_bit(first),
        (flag_bit(first) | flag_bit(second)) & flag_bit(second) == flag_bit(second),
        (flag_bit(first) | flag_bit(second)) & !flag_bit(first) & !flag_bit(second) == 0,
{
    let a = flag_bit(first);
    let b = flag_bit(second);
    assert((a | b) & a == a && (a | b) & b == b && (a | b) & !a & !b == 0) by (bit_vector);
}

/// The flags that a request for `path` needs, where it needs any.
pub open spec fn flags_for(path: Seq<char>) -> Option<u64> {
    if "/belgrade/documents"@.is_prefix_of(path) {
        Some(flag_bit(AuthFlags::EditUsers))
    } else {
        None
    }
}

/// The flags that a request for `path` needs, where it needs any.
pub fn required_flags(path: &str) -> (flags: Option<u64>)
    ensures
        flags == flags_for(path@),
{
    if starts_with(path, "/belgrade/documents") {
        let flags: u64 = AuthFlags::EditUsers | AuthFlags::EditUsers;
        assert(2u64 | 2u64 == 2u64) by (bit_vector);
        Some(flags)
    } else {
        None
    }
}

/// The sender of `request` holds `authorization_flags`. For now every sender holds every
/// flag, whatever the request.
pub closed spec fn grants(request: Request, authorization_flags: u64) -> bool {
    true
}

/// Whether the sender of `request` holds `authorization_flags`. Every sender does for now.
pub fn check_authorization(request: &Request, authorization_flags: u64) -> (allowed: Result<(), ()>)
    ensures
        allowed is Ok <==> grants(*request, authorization_flags),
        allowed == Ok::<(), ()>(()),
{
    Ok(())
}

/// Whether a request for `path` may be made, given what the check of its sender's flags came
/// to: where the path needs no flags, the check does not count.
pub open spec fn authorization_for(path: Seq<char>, checked: Result<(), ()>) -> Result<(), ()> {
    if flags_for(path) is Some {
        checked
    } else {
        Ok(())
    }
}

/// Whether a request for `path` may be made, given what the check of its sender's flags came
/// to.
pub fn authorize(path: &str, checked: Result<(), ()>) -> (authorization: Result<(), ()>)
    ensures
        authorization == authorization_for(path@, checked),
{
    if required_flags(path).is_some() {
        checked
    } else {
        Ok(())
    }
}

/// The sender of `request` holds the flags that its path needs, where it needs any.
pub open spec fn permitted(request: Request) -> bool {
    flags_for(request.path@) matches Some(flags) ==> grants(request, flags)
}

/// Each flag is a bit of its own.
pub proof fn law_flags_are_bits_of_their_own(first: AuthFlags, second: AuthFlags)
    ensures
        flag_bit(AuthFlags::ViewBelgradeDocuments) == 0x1,
        flag_bit(AuthFlags::EditUsers) == 0x2,
        first != second ==> flag_bit(first) & flag_bit(second) == 0,
{
    assert(1u64 & 2u64 == 0 && 2u64 & 1u64 == 0) by (bit_vector);
}

/// Flags are needed for the paths below the documents and for no others, whatever follows,
/// and they are those of editing users.
pub proof fn law_documents_need_flags(path: &str, rest: Seq<char>, flags: Option<u64>)
    requires
        call_ensures(required_flags, (path,), flags),
    ensures
        path@ == "/belgrade/documents"@ + rest ==> flags == Some(0x2u64),
        flags is Some ==> path@ == "/belgrade/documents"@ + path@.skip(
            "/belgrade/documents"@.len() as int,
        ),
{
    let below = "/belgrade/documents"@;
    if path@ == below + rest {
        assert(path@.take(below.len() as int) =~= below);
    }
    if flags is Some {
        assert(path@ =~= below + path@.skip(below.len() as int));
    }
}

/// What the check of a sender's flags came to decides for the paths that need flags, and
/// only for them. The check itself lets everyone pass for now.
pub proof fn law_check_counts_where_flags_are_needed(
    path: &str,
    checked: Result<(), ()>,
    flags: Option<u64>,
    authorization: Result<(), ()>,
    request: &Request,
    asked: u64,
    answer: Result<(), ()>,
)
    requires
        call_ensures(required_flags, (path,), flags),
        call_ensures(authorize, (path, checked), authorization),
        call_ensures(check_authorization, (request, asked), answer),
    ensures
        authorization is Err <==> flags is Some && checked is Err,
        answer is Ok,
{
}

/// The flags that are needed together hold the bit of each and no other bit, in whichever
/// order they are named.
pub proof fn law_needed_together(
    first: AuthFlags,
    second: AuthFlags,
    bits: u64,
    swapped: u64,
    first_bit: u64,
    second_bit: u64,
)
    requires
        call_ensures(<AuthFlags as BitOr>::bitor, (first, second), bits),
        call_ensures(<AuthFlags as BitOr>::bitor, (second, first), swapped),
        call_ensures(<u64 as From<AuthFlags>>::from, (first,), first_bit),
        call_ensures(<u64 as From<AuthFlags>>::from, (second,), second_bit),
    ensures
        bits & first_bit == first_bit,
        bits & second_bit == second_bit,
        bits & !first_bit & !second_bit == 0,
        bits == swapped,
        first_bit == 0x1 <==> first is ViewBelgradeDocuments,
        first_bit == 0x2 <==> first is EditUsers,
{
    law_flags_together(first, second);
    let a = flag_bit(first);
    let b = flag_bit(second);
    assert(a | b == b | a) by (bit_vector);
}

} // verus!
