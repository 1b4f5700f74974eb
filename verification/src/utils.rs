//! How long ago something happened, in words.

use vstd::prelude::*;
use vstd::string::*;

use crate::domain::common::Timestamp;
use crate::text::{decimal, decimal_string};

verus! {

/// The whole seconds from `time` to `now`, or `None` where `time` is after
/// `now`.
pub open spec fn elapsed_secs(now: Timestamp, time: Timestamp) -> Option<nat> {
    if time.not_after(&now) {
        if now.nanos < time.nanos {
            Some((now.secs - time.secs - 1) as nat)
        } else {
            Some((now.secs - time.secs) as nat)
        }
    } else {
        None
    }
}

/// The words for a time that lies `secs` seconds back: nothing under a
/// minute, then minutes, then hours under a day, then days.
pub open spec fn ago_text(secs: nat) -> Seq<char> {
    let hours = secs / 3600;
    let days = secs / 86400;
    let mins = secs / 60;
    if hours < 1 {
        if mins < 1 {
            "только что"@
        } else {
            decimal(mins) + " мин. назад"@
        }
    } else if hours < 24 {
        decimal(hours) + " ч. назад"@
    } else if days == 1 {
        "1 день назад"@
    } else {
        decimal(days) + " дн. назад"@
    }
}

/// The words for `time` as seen from `now`.
pub open spec fn time_ago_text(now: Timestamp, time: Timestamp) -> Seq<char> {
    match elapsed_secs(now, time) {
        Some(secs) => ago_text(secs),
        None => "в будущем"@,
    }
}

/// Says how long before `now` the moment `time` was.
pub fn time_ago(now: Timestamp, time: Timestamp) -> (text: String)
    ensures
        text@ == time_ago_text(now, time),
{
    if !time.is_not_after(&now) {
        return String::from_str("в будущем");
    }
    let total_secs: u64 = if now.nanos < time.nanos {
        now.secs - time.secs - 1
    } else {
        now.secs - time.secs
    };
    let hours: u64 = total_secs / 3600;
    let days: u64 = total_secs / 86400;
    if hours < 1 {
        let mins: u64 = total_secs / 60;
        if mins < 1 {
            String::from_str("только что")
        } else {
            decimal_string(mins).concat(" мин. назад")
        }
    } else if hours < 24 {
        decimal_string(hours).concat(" ч. назад")
    } else if days == 1 {
        String::from_str("1 день назад")
    } else {
        decimal_string(days).concat(" дн. назад")
    }
}

} // verus!
