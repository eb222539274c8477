//! What this crate takes on trust from `soroban_sdk`.
//!
//! Verus reads none of the SDK. It believes what is declared here: two of the
//! SDK's types, of which it sees nothing but that their values exist, and
//! three of its functions. Each call into the host is charged to the budget of
//! the invocation it is made in, and the host ends the invocation when the
//! budget is spent; nothing here or elsewhere in the crate is about that.

use soroban_sdk::{Env, String};
use vstd::prelude::*;
use vstd::string::*;

verus! {

/// `soroban_sdk::Env`, the handle by which a contract reaches its host.
#[verifier::external_type_specification]
#[verifier::external_body]
pub struct ExEnv(soroban_sdk::Env);

/// `soroban_sdk::String`, the handle of a byte string that the host holds.
#[verifier::external_type_specification]
#[verifier::external_body]
pub struct ExString(soroban_sdk::String);

/// The bytes that a host string holds. A string object never changes once
/// the host has made it.
pub uninterp spec fn bytes_of(s: soroban_sdk::String) -> Seq<u8>;

/// `soroban_sdk::String::from_str` has the host make a new string object out
/// of the UTF-8 bytes of `s`, which is claimed here: the string returned holds
/// exactly those bytes. The host holds strings of up to `u32::MAX` bytes and
/// refuses longer ones.
pub assume_specification[ soroban_sdk::String::from_str ](env: &Env, s: &str) -> (text: String)
    requires
        s.spec_bytes().len() <= u32::MAX,
    ensures
        bytes_of(text) == s.spec_bytes(),
;

/// `Clone::clone` of `soroban_sdk::String`, which the SDK derives, copies the
/// handle. Claimed here: the copy, naming the same string object, holds the
/// same bytes.
pub assume_specification[ <soroban_sdk::String as Clone>::clone ](s: &String) -> (copy: String)
    ensures
        bytes_of(copy) == bytes_of(*s),
;

/// `soroban_sdk::ledger::Ledger::timestamp`, reached by `Env::ledger`, gives
/// the close time of the ledger that the host is working on, in seconds since
/// the Unix epoch. Nothing is claimed of the value: it is the host's to set.
/// The host answers once it has been told its ledger, as it has been wherever
/// a contract runs and in the SDK's test environment.
#[verifier::external_body]
pub(crate) fn ledger_timestamp(env: &Env) -> (now: u64) {
    env.ledger().timestamp()
}

} // verus!
