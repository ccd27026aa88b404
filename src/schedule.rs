//! Days of the week for the strips' on/off schedules, and the parser of day
//! lists such as `"mon,wed,fri"` or `"weekend"`.
use crate::text::{first_index, lemma_first_index};
use vstd::prelude::*;
use vstd::string::StringSliceAdditionalSpecFns;

verus! {

pub const MONDAY: u8 = 0x01;
pub const TUESDAY: u8 = 0x02;
pub const WEDNESDAY: u8 = 0x04;
pub const THURSDAY: u8 = 0x08;
pub const FRIDAY: u8 = 0x10;
pub const SATURDAY: u8 = 0x20;
pub const SUNDAY: u8 = 0x40;
/// Every day of the week.
pub const ALL_DAYS: u8 = 0x7f;
/// Monday to Friday.
pub const WORKING_DAYS: u8 = 0x1f;
/// Saturday and Sunday.
pub const WEEKEND_DAYS: u8 = 0x60;

/// Represents days of the week for scheduling, as bit masks
#[derive(Debug, Clone, Copy, PartialEq, Eq)]
pub struct Days {
    /// Monday (0x01)
    pub monday: u8,
    /// Tuesday (0x02)
    pub tuesday: u8,
    /// Wednesday (0x04)
    pub wednesday: u8,
    /// Thursday (0x08)
    pub thursday: u8,
    /// Friday (0x10)
    pub friday: u8,
    /// Saturday (0x20)
    pub saturday: u8,
    /// Sunday (0x40)
    pub sunday: u8,
    /// All days (0x7F)
    pub all: u8,
    /// Week days (Monday-Friday, 0x1F)
    pub week_days: u8,
    /// Weekend days (Saturday-Sunday, 0x60)
    pub weekend_days: u8,
    /// No days (0x00)
    pub none: u8,
}

impl Days {
    /// The masks that the strips use for each day and group of days.
    pub fn standard() -> (r: Days)
        ensures
            r.monday == MONDAY,
            r.tuesday == TUESDAY,
            r.wednesday == WEDNESDAY,
            r.thursday == THURSDAY,
            r.friday == FRIDAY,
            r.saturday == SATURDAY,
            r.sunday == SUNDAY,
            r.all == ALL_DAYS,
            r.week_days == WORKING_DAYS,
            r.weekend_days == WEEKEND_DAYS,
            r.none == 0,
    {
        Days {
            monday: MONDAY,
            tuesday: TUESDAY,
            wednesday: WEDNESDAY,
            thursday: THURSDAY,
            friday: FRIDAY,
            saturday: SATURDAY,
            sunday: SUNDAY,
            all: ALL_DAYS,
            week_days: WORKING_DAYS,
            weekend_days: WEEKEND_DAYS,
            none: 0,
        }
    }
}

pub open spec fn ascii_lower(c: u8) -> u8 {
    if 0x41 <= c <= 0x5a {
        (c + 0x20) as u8
    } else {
        c
    }
}

/// Whether the bytes `b` spell `name`, without regard to ASCII case.
pub open spec fn is_name(b: Seq<u8>, name: &str) -> bool {
    &&& b.len() == name.spec_bytes().len()
    &&& forall|i: int| 0 <= i < b.len() ==> ascii_lower(b[i]) == name.spec_bytes()[i]
}

/// The mask of a day name or group name, if `b` is one.
#[verifier::opaque]
pub open spec fn name_mask(b: Seq<u8>) -> Option<u8> {
    if is_name(b, "mon") || is_name(b, "monday") {
        Some(MONDAY)
    } else if is_name(b, "tue") || is_name(b, "tuesday") {
        Some(TUESDAY)
    } else if is_name(b, "wed") || is_name(b, "wednesday") {
        Some(WEDNESDAY)
    } else if is_name(b, "thu") || is_name(b, "thursday") {
        Some(THURSDAY)
    } else if is_name(b, "fri") || is_name(b, "friday") {
        Some(FRIDAY)
    } else if is_name(b, "sat") || is_name(b, "saturday") {
        Some(SATURDAY)
    } else if is_name(b, "sun") || is_name(b, "sunday") {
        Some(SUNDAY)
    } else if is_name(b, "all") {
        Some(ALL_DAYS)
    } else if is_name(b, "weekdays") {
        Some(WORKING_DAYS)
    } else if is_name(b, "weekend") {
        Some(WEEKEND_DAYS)
    } else {
        None
    }
}

/// The mask of one item of a list: its name's mask, or 0 for an unknown word.
pub open spec fn item_mask(b: Seq<u8>) -> u8 {
    match name_mask(b) {
        Some(m) => m,
        None => 0,
    }
}

/// The union of the masks of the comma-separated items of `b`.
pub open spec fn list_mask(b: Seq<u8>) -> u8
    decreases b.len(),
{
    let k = first_index(b, 0x2c);
    if k >= b.len() {
        item_mask(b)
    } else {
        item_mask(b.take(k as int)) | list_mask(b.skip(k + 1 as int))
    }
}

/// The mask that a days argument stands for: a day or group name, or a
/// comma-separated list of them; unknown words count as no day.
pub open spec fn days_mask(b: Seq<u8>) -> u8 {
    match name_mask(b) {
        Some(m) => m,
        None => list_mask(b),
    }
}

/// Whether `b[start..end]` spells `name`, without regard to ASCII case.
fn spells(b: &[u8], start: usize, end: usize, name: &str) -> (r: bool)
    requires
        start <= end <= b@.len(),
    ensures
        r == is_name(b@.subrange(start as int, end as int), name),
{
    let n = name.as_bytes();
    if end - start != n.len() {
        return false;
    }
    let mut i: usize = 0;
    while i < n.len()
        invariant
            start <= end <= b@.len(),
            end - start == n@.len(),
            n@ == name.spec_bytes(),
            i <= n@.len(),
            forall|j: int| 0 <= j < i ==> ascii_lower(b@[start + j]) == n@[j],
        decreases n@.len() - i,
    {
        let c = b[start + i];
        let lower = if 0x41 <= c && c <= 0x5a {
            c + 0x20
        } else {
            c
        };
        if lower != n[i] {
            return false;
        }
        i = i + 1;
    }
    true
}

fn name_mask_of(b: &[u8], start: usize, end: usize) -> (r: Option<u8>)
    requires
        start <= end <= b@.len(),
    ensures
        r == name_mask(b@.subrange(start as int, end as int)),
{
    reveal(name_mask);
    if spells(b, start, end, "mon") || spells(b, start, end, "monday") {
        Some(MONDAY)
    } else if spells(b, start, end, "tue") || spells(b, start, end, "tuesday") {
        Some(TUESDAY)
    } else if spells(b, start, end, "wed") || spells(b, start, end, "wednesday") {
        Some(WEDNESDAY)
    } else if spells(b, start, end, "thu") || spells(b, start, end, "thursday") {
        Some(THURSDAY)
    } else if spells(b, start, end, "fri") || spells(b, start, end, "friday") {
        Some(FRIDAY)
    } else if spells(b, start, end, "sat") || spells(b, start, end, "saturday") {
        Some(SATURDAY)
    } else if spells(b, start, end, "sun") || spells(b, start, end, "sunday") {
        Some(SUNDAY)
    } else if spells(b, start, end, "all") {
        Some(ALL_DAYS)
    } else if spells(b, start, end, "weekdays") {
        Some(WORKING_DAYS)
    } else if spells(b, start, end, "weekend") {
        Some(WEEKEND_DAYS)
    } else {
        None
    }
}

fn item_mask_of(b: &[u8], start: usize, end: usize) -> (r: u8)
    requires
        start <= end <= b@.len(),
    ensures
        r == item_mask(b@.subrange(start as int, end as int)),
{
    match name_mask_of(b, start, end) {
        Some(m) => m,
        None => 0,
    }
}

/// Parses a days argument: a day name (`mon` or `monday`, ...), `all`,
/// `weekdays`, `weekend`, or a comma-separated list of these, without
/// regard to ASCII case. Unknown words count as no day.
pub fn parse_days(days: &str) -> (r: u8)
    ensures
        r == days_mask(days.spec_bytes()),
{
    let b = days.as_bytes();
    proof {
        assert(b@.subrange(0, b@.len() as int) =~= b@);
    }
    if let Some(m) = name_mask_of(b, 0, b.len()) {
        return m;
    }
    let mut acc: u8 = 0;
    let mut start: usize = 0;
    let mut i: usize = 0;
    proof {
        assert(b@.skip(0) =~= b@);
        let whole = list_mask(b@);
        assert(0u8 | whole == whole) by (bit_vector);
    }
    while i < b.len()
        invariant
            start <= i <= b@.len(),
            forall|j: int| start <= j < i ==> b@[j] != 0x2c,
            acc | list_mask(b@.skip(start as int)) == list_mask(b@),
        decreases b@.len() - i,
    {
        if b[i] == 0x2c {
            let item = item_mask_of(b, start, i);
            proof {
                let s = b@.skip(start as int);
                lemma_first_index(s, 0x2c, i - start);
                assert(s.take(i - start) =~= b@.subrange(start as int, i as int));
                assert(s.skip(i - start + 1) =~= b@.skip(i + 1));
                let rest = list_mask(b@.skip(i + 1));
                assert((acc | item) | rest == acc | (item | rest)) by (bit_vector);
            }
            acc = acc | item;
            start = i + 1;
        }
        i = i + 1;
    }
    let item = item_mask_of(b, start, b.len());
    proof {
        let s = b@.skip(start as int);
        lemma_first_index(s, 0x2c, s.len() as int);
        assert(s =~= b@.subrange(start as int, b@.len() as int));
    }
    acc | item
}

} // verus!
