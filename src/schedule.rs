//! Weekly operating-hour rules.
use vstd::prelude::*;
use crate::clock::{SECS_PER_DAY, is_weekday, parse_time_of_day, time_of_day_of_text};

verus! {

/// A declared open/close window for one weekday, as wall-clock seconds since
/// midnight in the IANA zone `time_zone`.
#[derive(Clone, Debug)]
pub struct OperatingHourRule {
    pub business_id: u128,
    pub day_of_week: u8,
    pub open_time: u32,
    pub close_time: u32,
    pub time_zone: String,
}

impl OperatingHourRule {
    /// A weekday from 1 to 7, times of day within the day, and opening
    /// strictly before closing.
    pub open spec fn wf(&self) -> bool {
        &&& is_weekday(self.day_of_week as int)
        &&& self.open_time < self.close_time
        &&& self.close_time < SECS_PER_DAY
    }
}

/// One rule of a new weekly schedule, as sent: times as `HH:MM:SS`.
#[derive(Clone, Debug)]
pub struct AvailabilitySlot {
    pub day_of_week: i32,
    pub open_time: String,
    pub close_time: String,
    pub time_zone: String,
}

/// A whole weekly schedule, which replaces the previous one.
#[derive(Clone, Debug)]
pub struct SetAvailability {
    pub rules: Vec<AvailabilitySlot>,
}

/// What is wrong with one rule of a new schedule.
#[derive(Clone, Copy, Debug, PartialEq, Eq, Structural)]
pub enum RuleFault {
    /// The opening time is not `HH:MM:SS`.
    BadOpenTime,
    /// The closing time is not `HH:MM:SS`.
    BadCloseTime,
    /// The weekday is not from 1 to 7.
    BadDay,
    /// The rule does not open before it closes.
    OpenNotBeforeClose,
}

/// The first faulty rule of a new schedule, by its position.
#[derive(Clone, Copy, Debug, PartialEq, Eq, Structural)]
pub struct ScheduleError {
    pub index: usize,
    pub fault: RuleFault,
}

/// The fault of a rule as sent, if any; times are checked first, in order.
pub open spec fn slot_fault(slot: AvailabilitySlot) -> Option<RuleFault> {
    match (time_of_day_of_text(slot.open_time@), time_of_day_of_text(slot.close_time@)) {
        (None, _) => Some(RuleFault::BadOpenTime),
        (Some(_), None) => Some(RuleFault::BadCloseTime),
        (Some(open), Some(close)) => if !is_weekday(slot.day_of_week as int) {
            Some(RuleFault::BadDay)
        } else if open >= close {
            Some(RuleFault::OpenNotBeforeClose)
        } else {
            None
        },
    }
}

/// `rule` is the rule of `business_id` that the faultless `slot` describes.
pub open spec fn rule_of_slot(rule: OperatingHourRule, slot: AvailabilitySlot, business_id: u128) -> bool {
    &&& rule.business_id == business_id
    &&& rule.day_of_week as int == slot.day_of_week as int
    &&& time_of_day_of_text(slot.open_time@) == Some(rule.open_time)
    &&& time_of_day_of_text(slot.close_time@) == Some(rule.close_time)
    &&& rule.time_zone@ == slot.time_zone@
}

fn check_slot(slot: &AvailabilitySlot) -> (r: Result<(u32, u32), RuleFault>)
    ensures
        match r {
            Ok((open, close)) => slot_fault(*slot) is None && time_of_day_of_text(slot.open_time@)
                == Some(open) && time_of_day_of_text(slot.close_time@) == Some(close),
            Err(f) => slot_fault(*slot) == Some(f),
        },
        r matches Ok((open, close)) ==> close < SECS_PER_DAY,
{
    let open = match parse_time_of_day(slot.open_time.as_str()) {
        Some(t) => t,
        None => return Err(RuleFault::BadOpenTime),
    };
    let close = match parse_time_of_day(slot.close_time.as_str()) {
        Some(t) => t,
        None => return Err(RuleFault::BadCloseTime),
    };
    if slot.day_of_week < 1 || slot.day_of_week > 7 {
        return Err(RuleFault::BadDay);
    }
    if open >= close {
        return Err(RuleFault::OpenNotBeforeClose);
    }
    Ok((open, close))
}

/// The rules of `business_id` that a new weekly schedule describes, in its
/// order; the first faulty rule refuses the whole schedule.
pub fn parse_weekly_schedule(business_id: u128, schedule: &SetAvailability) -> (r: Result<
    Vec<OperatingHourRule>,
    ScheduleError,
>)
    ensures
        r is Ok <==> forall|i: int|
            0 <= i < schedule.rules@.len() ==> (#[trigger] slot_fault(schedule.rules@[i])) is None,
        r matches Ok(rules) ==> {
            &&& rules@.len() == schedule.rules@.len()
            &&& forall|i: int|
                0 <= i < rules@.len() ==> #[trigger] rule_of_slot(
                    rules@[i],
                    schedule.rules@[i],
                    business_id,
                ) && rules@[i].wf()
        },
        r matches Err(e) ==> {
            &&& e.index < schedule.rules@.len()
            &&& slot_fault(schedule.rules@[e.index as int]) == Some(e.fault)
            &&& forall|i: int| 0 <= i < e.index ==> (#[trigger] slot_fault(schedule.rules@[i])) is None
        },
{
    let mut rules: Vec<OperatingHourRule> = Vec::new();
    let mut i: usize = 0;
    while i < schedule.rules.len()
        invariant
            i <= schedule.rules@.len(),
            rules@.len() == i,
            forall|k: int| 0 <= k < i ==> (#[trigger] slot_fault(schedule.rules@[k])) is None,
            forall|k: int|
                0 <= k < i ==> #[trigger] rule_of_slot(rules@[k], schedule.rules@[k], business_id)
                    && rules@[k].wf(),
        decreases schedule.rules@.len() - i,
    {
        let slot = &schedule.rules[i];
        match check_slot(slot) {
            Ok((open, close)) => {
                rules.push(
                    OperatingHourRule {
                        business_id,
                        day_of_week: slot.day_of_week as u8,
                        open_time: open,
                        close_time: close,
                        time_zone: slot.time_zone.clone(),
                    },
                );
            },
            Err(fault) => {
                return Err(ScheduleError { index: i, fault });
            },
        }
        i = i + 1;
    }
    Ok(rules)
}

} // verus!
