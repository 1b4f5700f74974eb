//! What the checkers read from and write to the registry, as plain values.
//!
//! A read yields `Option<u32>`: `None` where the key or the value is absent or
//! holds no DWORD. A write either succeeds or fails with a message.

use vstd::prelude::*;
use vstd::string::*;

use crate::domain::error::AppError;
use crate::domain::recent::RegistryLocation;

verus! {

/// One of the two hives that the checkers use.
#[derive(Debug, Clone, Copy, PartialEq, Eq, Structural)]
pub enum Hive {
    CurrentUser,
    LocalMachine,
}

/// What was read for one check: the value in each hive.
#[derive(Debug, Clone, Copy, PartialEq, Eq, Structural)]
pub struct Reading {
    pub hkcu: Option<u32>,
    pub hklm: Option<u32>,
}

/// One DWORD to write.
#[derive(Debug, Clone)]
pub struct RegistryWrite {
    pub hive: Hive,
    pub key: String,
    pub value: String,
    pub data: u32,
}

/// The mathematical value of a [`RegistryWrite`].
pub struct RegistryWriteView {
    pub hive: Hive,
    pub key: Seq<char>,
    pub value: Seq<char>,
    pub data: u32,
}

impl View for RegistryWrite {
    type V = RegistryWriteView;

    open spec fn view(&self) -> RegistryWriteView {
        RegistryWriteView { hive: self.hive, key: self.key@, value: self.value@, data: self.data }
    }
}

impl DeepView for RegistryWrite {
    type V = RegistryWriteView;

    open spec fn deep_view(&self) -> RegistryWriteView {
        self@
    }
}

/// Whether a check at `location` reads `hive`.
pub open spec fn location_reads(location: RegistryLocation, hive: Hive) -> bool {
    match location {
        RegistryLocation::HKCU => hive == Hive::CurrentUser,
        RegistryLocation::HKLM => hive == Hive::LocalMachine,
        RegistryLocation::Both => true,
    }
}

#[verifier::when_used_as_spec(location_reads)]
pub fn reads_hive(location: RegistryLocation, hive: Hive) -> (b: bool)
    ensures
        b == location_reads(location, hive),
{
    match location {
        RegistryLocation::HKCU => hive == Hive::CurrentUser,
        RegistryLocation::HKLM => hive == Hive::LocalMachine,
        RegistryLocation::Both => true,
    }
}

/// The hive that a fix for a check at `location` is written to: the
/// machine-wide hive only where the check reads nothing else.
pub open spec fn write_target(location: RegistryLocation) -> Hive {
    match location {
        RegistryLocation::HKLM => Hive::LocalMachine,
        _ => Hive::CurrentUser,
    }
}

#[verifier::when_used_as_spec(write_target)]
pub fn write_hive(location: RegistryLocation) -> (hive: Hive)
    ensures
        hive == write_target(location),
{
    match location {
        RegistryLocation::HKLM => Hive::LocalMachine,
        _ => Hive::CurrentUser,
    }
}

/// The value that counts for a check at `location` which expects `expected`.
///
/// With one hive it is what that hive holds. With both, the machine-wide hive
/// is looked at first: a value there that differs from `expected` decides;
/// otherwise the user's value counts if there is one, and the machine-wide
/// value if not.
pub open spec fn effective_value(
    location: RegistryLocation,
    expected: u32,
    reading: Reading,
) -> Option<u32> {
    match location {
        RegistryLocation::HKCU => reading.hkcu,
        RegistryLocation::HKLM => reading.hklm,
        RegistryLocation::Both => {
            if reading.hklm is Some && reading.hklm != Some(expected) {
                reading.hklm
            } else if reading.hkcu is Some {
                reading.hkcu
            } else {
                reading.hklm
            }
        },
    }
}

pub fn resolve(location: RegistryLocation, expected: u32, reading: Reading) -> (value: Option<u32>)
    ensures
        value == effective_value(location, expected, reading),
{
    match location {
        RegistryLocation::HKCU => reading.hkcu,
        RegistryLocation::HKLM => reading.hklm,
        RegistryLocation::Both => {
            match reading.hklm {
                Some(machine) => {
                    if machine != expected {
                        return Some(machine);
                    }
                },
                None => {},
            }
            match reading.hkcu {
                Some(user) => Some(user),
                None => reading.hklm,
            }
        },
    }
}

/// With both hives read, the value that counts equals `expected` exactly
/// when no hive holds another value and at least one holds `expected`.
pub proof fn lemma_both_hives_pass(expected: u32, reading: Reading)
    ensures
        effective_value(RegistryLocation::Both, expected, reading) == Some(expected) <==> {
            &&& reading.hklm is Some ==> reading.hklm == Some(expected)
            &&& reading.hkcu is Some ==> reading.hkcu == Some(expected)
            &&& reading.hklm is Some || reading.hkcu is Some
        },
{
}

/// The error that a failed write is reported as.
pub fn write_error(message: &str) -> (e: AppError)
    ensures
        e@ == crate::domain::error::AppErrorView::Registry(message@),
{
    AppError::Registry(String::from_str(message))
}

} // verus!
