//! The local-notifications plugin's request, response and event types.

use vstd::prelude::*;
#[allow(unused_imports)]
use crate::codec::{BridgeDto, ObjBuilder, ObjReader, accepts_of, decode_seq, decode_strs,
    encode_of, encode_seq, encode_strs, lemma_accepts_of, lemma_encode_of,
    lemma_encode_of_accepted, lemma_seq_encode_accepted, lemma_strs_encode_accepted, opt_field,
    req_field, spec_accepts_seq, spec_accepts_strs, spec_encode_seq, spec_encode_strs};
#[allow(unused_imports)]
use crate::value::{Value, ValueView, field_views, lemma_field_views, str_eq};

verus! {

/// The local-notifications plugin: schedule, deliver and manage notifications on the device.
pub struct LocalNotifications;

/// The notifications to schedule.
#[derive(Clone, Debug, PartialEq)]
pub struct ScheduleOptions {
    pub notifications: Vec<LocalNotificationSchema>,
}
/// The action types to register.
#[derive(Clone, Debug, PartialEq)]
pub struct RegisterActionTypesOptions {
    pub types: Vec<ActionType>,
}
/// An action shown with a notification.
#[derive(Clone, Debug, PartialEq)]
pub struct Action {
    pub id: String,
    pub title: String,
}
/// Whether the device has local notifications enabled.
#[derive(Clone, Debug, PartialEq)]
pub struct EnabledResult {
    pub value: bool,
}
/// The permission to display local notifications.
#[derive(Clone, Debug, PartialEq)]
pub struct PermissionStatus {
    pub display: PermissionState,
}
/// The payload of the action performed event stream.
#[derive(Clone, Debug, PartialEq)]
pub struct ActionPerformed {
    pub action_id: String,
    pub input_value: Option<String>,
    pub notification: LocalNotificationSchema,
}
/// A named collection of actions.
#[derive(Clone, Debug, PartialEq)]
pub struct ActionType {
    pub id: String,
    pub actions: Vec<Action>,
}
/// The notifications that were scheduled.
#[derive(Clone, Debug, PartialEq)]
pub struct ScheduleResult {
    pub notifications: Vec<LocalNotificationDescriptor>,
}
/// The pending notifications to cancel.
#[derive(Clone, Debug, PartialEq)]
pub struct CancelOptions {
    pub notifications: Vec<LocalNotificationDescriptor>,
}
/// Identifies one notification.
#[derive(Clone, Debug, PartialEq)]
pub struct LocalNotificationDescriptor {
    pub id: i32,
}
/// When a notification fires.
///
/// `On` fires on a calendar match, `At` at a point in time (milliseconds
/// since the epoch), `Every` on a fixed interval.
#[derive(Clone, Debug, PartialEq)]
pub enum Schedule {
    On { on: ScheduleOn, allow_while_idle: bool },
    At { at_epoch_millis: i64, repeats: bool, allow_while_idle: bool },
    Every { every: ScheduleEvery, count: u32, allow_while_idle: bool },
}

/// A notification to schedule.
#[derive(Clone, Debug, PartialEq)]
pub struct LocalNotificationSchema {
    pub title: String,
    pub body: String,
    pub schedule: Schedule,
    pub large_body: Option<String>,
    pub summary_text: Option<String>,
    pub id: i32,
    pub ongoing: bool,
    pub auto_cancel: bool,
    pub inbox_list: Option<Vec<String>>,
    pub small_icon: Option<String>,
    pub large_icon: Option<String>,
    pub icon_color: Option<String>,
    pub action_type_id: Option<String>,
    pub group: Option<String>,
    pub group_summary: Option<String>,
    pub sound: Option<String>,
    pub thread_identifier: Option<String>,
    pub summary_argument: Option<String>,
    pub channel_id: Option<String>,
}
/// The calendar fields a notification fires on; absent fields match anything.
#[derive(Clone, Debug, PartialEq)]
pub struct ScheduleOn {
    pub year: Option<u32>,
    pub month: Option<u32>,
    pub day: Option<u32>,
    pub weekday: Option<Weekday>,
    pub hour: Option<u32>,
    pub minute: Option<u32>,
    pub second: Option<u32>,
}
/// A fixed scheduling interval.
#[derive(Clone, Copy, Debug, PartialEq, Eq, Structural)]
pub enum ScheduleEvery {
    Year,
    Month,
    TwoWeeks,
    Week,
    Day,
    Hour,
    Minute,
    Second,
}
/// A day of the week.
#[derive(Clone, Copy, Debug, PartialEq, Eq, Structural)]
pub enum Weekday {
    Sunday,
    Monday,
    Tuesday,
    Wednesday,
    Thursday,
    Friday,
    Saturday,
}
/// The state of a permission.
#[derive(Clone, Copy, Debug, PartialEq, Eq, Structural)]
pub enum PermissionState {
    Prompt,
    PromptWithRationale,
    Granted,
    Denied,
}
/// The notifications visible on the notifications screen.
#[derive(Clone, Debug, PartialEq)]
pub struct DeliveredNotifications {
    pub notifications: Vec<DeliveredNotificationSchema>,
}
/// One notification visible on the notifications screen.
#[derive(Clone, Debug, PartialEq)]
pub struct DeliveredNotificationSchema {
    pub id: i32,
    pub tag: Option<String>,
    pub title: String,
    pub body: String,
    pub group: Option<String>,
    pub group_summary: Option<bool>,
}
impl BridgeDto for ScheduleEvery {
    open spec fn spec_encode(self) -> ValueView {
        match self {
            ScheduleEvery::Year => ValueView::Str("year"@),
            ScheduleEvery::Month => ValueView::Str("month"@),
            ScheduleEvery::TwoWeeks => ValueView::Str("two-weeks"@),
            ScheduleEvery::Week => ValueView::Str("week"@),
            ScheduleEvery::Day => ValueView::Str("day"@),
            ScheduleEvery::Hour => ValueView::Str("hour"@),
            ScheduleEvery::Minute => ValueView::Str("minute"@),
            ScheduleEvery::Second => ValueView::Str("second"@),
        }
    }

    open spec fn spec_accepts(m: ValueView) -> bool {
        m matches ValueView::Str(s) && (s == "year"@ || s == "month"@ || s == "two-weeks"@ || s == "week"@ || s == "day"@ || s == "hour"@ || s == "minute"@ || s == "second"@)
    }

    open spec fn spec_typename() -> Seq<char> {
        "ScheduleEvery"@
    }

    proof fn lemma_encode_accepted(&self) {
    }

    fn typename() -> (r: &'static str) {
        "ScheduleEvery"
    }

    fn to_bridge(&self) -> (r: Value) {
        match self {
            ScheduleEvery::Year => Value::Str("year".to_owned()),
            ScheduleEvery::Month => Value::Str("month".to_owned()),
            ScheduleEvery::TwoWeeks => Value::Str("two-weeks".to_owned()),
            ScheduleEvery::Week => Value::Str("week".to_owned()),
            ScheduleEvery::Day => Value::Str("day".to_owned()),
            ScheduleEvery::Hour => Value::Str("hour".to_owned()),
            ScheduleEvery::Minute => Value::Str("minute".to_owned()),
            ScheduleEvery::Second => Value::Str("second".to_owned()),
        }
    }

    fn from_bridge(v: &Value) -> (r: Option<Self>) {
        match v {
            Value::Str(s) => {
                if str_eq(s.as_str(), "year") {
                    Some(ScheduleEvery::Year)
                } else if str_eq(s.as_str(), "month") {
                    Some(ScheduleEvery::Month)
                } else if str_eq(s.as_str(), "two-weeks") {
                    Some(ScheduleEvery::TwoWeeks)
                } else if str_eq(s.as_str(), "week") {
                    Some(ScheduleEvery::Week)
                } else if str_eq(s.as_str(), "day") {
                    Some(ScheduleEvery::Day)
                } else if str_eq(s.as_str(), "hour") {
                    Some(ScheduleEvery::Hour)
                } else if str_eq(s.as_str(), "minute") {
                    Some(ScheduleEvery::Minute)
                } else if str_eq(s.as_str(), "second") {
                    Some(ScheduleEvery::Second)
                } else {
                    None
                }
            },
            _ => None,
        }
    }
}
impl BridgeDto for Weekday {
    open spec fn spec_encode(self) -> ValueView {
        match self {
            Weekday::Sunday => ValueView::Str("sunday"@),
            Weekday::Monday => ValueView::Str("monday"@),
            Weekday::Tuesday => ValueView::Str("tuesday"@),
            Weekday::Wednesday => ValueView::Str("wednesday"@),
            Weekday::Thursday => ValueView::Str("thursday"@),
            Weekday::Friday => ValueView::Str("friday"@),
            Weekday::Saturday => ValueView::Str("saturday"@),
        }
    }

    open spec fn spec_accepts(m: ValueView) -> bool {
        m matches ValueView::Str(s) && (s == "sunday"@ || s == "monday"@ || s == "tuesday"@ || s == "wednesday"@ || s == "thursday"@ || s == "friday"@ || s == "saturday"@)
    }

    open spec fn spec_typename() -> Seq<char> {
        "Weekday"@
    }

    proof fn lemma_encode_accepted(&self) {
    }

    fn typename() -> (r: &'static str) {
        "Weekday"
    }

    fn to_bridge(&self) -> (r: Value) {
        match self {
            Weekday::Sunday => Value::Str("sunday".to_owned()),
            Weekday::Monday => Value::Str("monday".to_owned()),
            Weekday::Tuesday => Value::Str("tuesday".to_owned()),
            Weekday::Wednesday => Value::Str("wednesday".to_owned()),
            Weekday::Thursday => Value::Str("thursday".to_owned()),
            Weekday::Friday => Value::Str("friday".to_owned()),
            Weekday::Saturday => Value::Str("saturday".to_owned()),
        }
    }

    fn from_bridge(v: &Value) -> (r: Option<Self>) {
        match v {
            Value::Str(s) => {
                if str_eq(s.as_str(), "sunday") {
                    Some(Weekday::Sunday)
                } else if str_eq(s.as_str(), "monday") {
                    Some(Weekday::Monday)
                } else if str_eq(s.as_str(), "tuesday") {
                    Some(Weekday::Tuesday)
                } else if str_eq(s.as_str(), "wednesday") {
                    Some(Weekday::Wednesday)
                } else if str_eq(s.as_str(), "thursday") {
                    Some(Weekday::Thursday)
                } else if str_eq(s.as_str(), "friday") {
                    Some(Weekday::Friday)
                } else if str_eq(s.as_str(), "saturday") {
                    Some(Weekday::Saturday)
                } else {
                    None
                }
            },
            _ => None,
        }
    }
}
impl BridgeDto for PermissionState {
    open spec fn spec_encode(self) -> ValueView {
        match self {
            PermissionState::Prompt => ValueView::Str("prompt"@),
            PermissionState::PromptWithRationale => ValueView::Str("prompt-with-rationale"@),
            PermissionState::Granted => ValueView::Str("granted"@),
            PermissionState::Denied => ValueView::Str("denied"@),
        }
    }

    open spec fn spec_accepts(m: ValueView) -> bool {
        m matches ValueView::Str(s) && (s == "prompt"@ || s == "prompt-with-rationale"@ || s == "granted"@ || s == "denied"@)
    }

    open spec fn spec_typename() -> Seq<char> {
        "PermissionState"@
    }

    proof fn lemma_encode_accepted(&self) {
    }

    fn typename() -> (r: &'static str) {
        "PermissionState"
    }

    fn to_bridge(&self) -> (r: Value) {
        match self {
            PermissionState::Prompt => Value::Str("prompt".to_owned()),
            PermissionState::PromptWithRationale => Value::Str("prompt-with-rationale".to_owned()),
            PermissionState::Granted => Value::Str("granted".to_owned()),
            PermissionState::Denied => Value::Str("denied".to_owned()),
        }
    }

    fn from_bridge(v: &Value) -> (r: Option<Self>) {
        match v {
            Value::Str(s) => {
                if str_eq(s.as_str(), "prompt") {
                    Some(PermissionState::Prompt)
                } else if str_eq(s.as_str(), "prompt-with-rationale") {
                    Some(PermissionState::PromptWithRationale)
                } else if str_eq(s.as_str(), "granted") {
                    Some(PermissionState::Granted)
                } else if str_eq(s.as_str(), "denied") {
                    Some(PermissionState::Denied)
                } else {
                    None
                }
            },
            _ => None,
        }
    }
}
impl BridgeDto for ScheduleOn {
    open spec fn spec_encode(self) -> ValueView {
        let fs = Seq::<(Seq<char>, ValueView)>::empty();
        let fs = if self.year is Some { fs.push(("year"@, ValueView::Int((self.year->0) as int))) } else { fs };
        let fs = if self.month is Some { fs.push(("month"@, ValueView::Int((self.month->0) as int))) } else { fs };
        let fs = if self.day is Some { fs.push(("day"@, ValueView::Int((self.day->0) as int))) } else { fs };
        let fs = if self.weekday is Some { fs.push(("weekday"@, encode_of::<Weekday>((self.weekday->0)))) } else { fs };
        let fs = if self.hour is Some { fs.push(("hour"@, ValueView::Int((self.hour->0) as int))) } else { fs };
        let fs = if self.minute is Some { fs.push(("minute"@, ValueView::Int((self.minute->0) as int))) } else { fs };
        let fs = if self.second is Some { fs.push(("second"@, ValueView::Int((self.second->0) as int))) } else { fs };
        ValueView::Obj(fs)
    }

    open spec fn spec_accepts(m: ValueView) -> bool {
        &&& m matches ValueView::Obj(fs)
        &&& {
            let (o0, i0) = opt_field(fs, 0, "year"@);
            (match o0 { Some(w) => (w matches ValueView::Int(n) && 0 <= n <= u32::MAX as int), None => true }) && {
                let (o1, i1) = opt_field(fs, i0, "month"@);
                (match o1 { Some(w) => (w matches ValueView::Int(n) && 0 <= n <= u32::MAX as int), None => true }) && {
                    let (o2, i2) = opt_field(fs, i1, "day"@);
                    (match o2 { Some(w) => (w matches ValueView::Int(n) && 0 <= n <= u32::MAX as int), None => true }) && {
                        let (o3, i3) = opt_field(fs, i2, "weekday"@);
                        (match o3 { Some(w) => accepts_of::<Weekday>(w), None => true }) && {
                            let (o4, i4) = opt_field(fs, i3, "hour"@);
                            (match o4 { Some(w) => (w matches ValueView::Int(n) && 0 <= n <= u32::MAX as int), None => true }) && {
                                let (o5, i5) = opt_field(fs, i4, "minute"@);
                                (match o5 { Some(w) => (w matches ValueView::Int(n) && 0 <= n <= u32::MAX as int), None => true }) && {
                                    let (o6, i6) = opt_field(fs, i5, "second"@);
                                    (match o6 { Some(w) => (w matches ValueView::Int(n) && 0 <= n <= u32::MAX as int), None => true }) && {
                                        i6 == fs.len()
                                    }
                                }
                            }
                        }
                    }
                }
            }
        }
    }

    open spec fn spec_typename() -> Seq<char> {
        "ScheduleOn"@
    }

    #[verifier::rlimit(100)]
    #[verifier::spinoff_prover]
    #[verifier::rlimit(100)]
    #[verifier::spinoff_prover]
    #[verifier::rlimit(100)]
    #[verifier::spinoff_prover]
    proof fn lemma_encode_accepted(&self) {
        reveal_strlit("day");
        reveal_strlit("hour");
        reveal_strlit("minute");
        reveal_strlit("month");
        reveal_strlit("second");
        reveal_strlit("weekday");
        reveal_strlit("year");
        assert(("year"@) != ("weekday"@)) by {
            assert(("year"@).len() == 4);
            assert(("weekday"@).len() == 7);
        }
        assert(("month"@) != ("weekday"@)) by {
            assert(("month"@).len() == 5);
            assert(("weekday"@).len() == 7);
        }
        assert(("day"@) != ("weekday"@)) by {
            assert(("day"@).len() == 3);
            assert(("weekday"@).len() == 7);
        }
        assert(("weekday"@) != ("hour"@)) by {
            assert(("weekday"@).len() == 7);
            assert(("hour"@).len() == 4);
        }
        assert(("weekday"@) != ("minute"@)) by {
            assert(("weekday"@).len() == 7);
            assert(("minute"@).len() == 6);
        }
        assert(("weekday"@) != ("second"@)) by {
            assert(("weekday"@).len() == 7);
            assert(("second"@).len() == 6);
        }
        if self.weekday is Some {
            lemma_encode_of_accepted::<Weekday>(self.weekday->0);
        }
    }

    fn typename() -> (r: &'static str) {
        "ScheduleOn"
    }

    fn to_bridge(&self) -> (r: Value) {
        let mut b = ObjBuilder::new();
        match &self.year {
            Some(x) => {
                b.put("year", Value::Int(*x as i64));
            },
            None => {},
        }
        match &self.month {
            Some(x) => {
                b.put("month", Value::Int(*x as i64));
            },
            None => {},
        }
        match &self.day {
            Some(x) => {
                b.put("day", Value::Int(*x as i64));
            },
            None => {},
        }
        match &self.weekday {
            Some(x) => {
                proof {
                    lemma_encode_of::<Weekday>(*x);
                }
                b.put("weekday", x.to_bridge());
            },
            None => {},
        }
        match &self.hour {
            Some(x) => {
                b.put("hour", Value::Int(*x as i64));
            },
            None => {},
        }
        match &self.minute {
            Some(x) => {
                b.put("minute", Value::Int(*x as i64));
            },
            None => {},
        }
        match &self.second {
            Some(x) => {
                b.put("second", Value::Int(*x as i64));
            },
            None => {},
        }
        proof {
            assert(self.spec_encode() == ValueView::Obj(b@));
        }
        b.finish()
    }

    #[verifier::rlimit(100)]
    #[verifier::spinoff_prover]
    #[verifier::rlimit(100)]
    #[verifier::spinoff_prover]
    #[verifier::rlimit(100)]
    #[verifier::spinoff_prover]
    fn from_bridge(v: &Value) -> (r: Option<Self>) {
        let mut rd = match ObjReader::start(v) {
            Some(rd) => rd,
            None => {
                return None;
            },
        };
        let f_year: Option<u32> = match rd.opt("year") {
            Some(vv) => match vv {
                Value::Int(n) => {
                    if *n < 0 || *n > u32::MAX as i64 {
                        return None;
                    }
                    Some(*n as u32)
                },
                _ => {
                    return None;
                },
            },
            None => None,
        };
        let f_month: Option<u32> = match rd.opt("month") {
            Some(vv) => match vv {
                Value::Int(n) => {
                    if *n < 0 || *n > u32::MAX as i64 {
                        return None;
                    }
                    Some(*n as u32)
                },
                _ => {
                    return None;
                },
            },
            None => None,
        };
        let f_day: Option<u32> = match rd.opt("day") {
            Some(vv) => match vv {
                Value::Int(n) => {
                    if *n < 0 || *n > u32::MAX as i64 {
                        return None;
                    }
                    Some(*n as u32)
                },
                _ => {
                    return None;
                },
            },
            None => None,
        };
        let f_weekday: Option<Weekday> = match rd.opt("weekday") {
            Some(vv) => match Weekday::from_bridge(vv) {
                Some(y) => {
                    proof {
                        lemma_accepts_of::<Weekday>(vv@);
                        lemma_encode_of::<Weekday>(y);
                    }
                    Some(y)
                },
                None => {
                    proof {
                        lemma_accepts_of::<Weekday>(vv@);
                    }
                    return None;
                },
            },
            None => None,
        };
        let f_hour: Option<u32> = match rd.opt("hour") {
            Some(vv) => match vv {
                Value::Int(n) => {
                    if *n < 0 || *n > u32::MAX as i64 {
                        return None;
                    }
                    Some(*n as u32)
                },
                _ => {
                    return None;
                },
            },
            None => None,
        };
        let f_minute: Option<u32> = match rd.opt("minute") {
            Some(vv) => match vv {
                Value::Int(n) => {
                    if *n < 0 || *n > u32::MAX as i64 {
                        return None;
                    }
                    Some(*n as u32)
                },
                _ => {
                    return None;
                },
            },
            None => None,
        };
        let f_second: Option<u32> = match rd.opt("second") {
            Some(vv) => match vv {
                Value::Int(n) => {
                    if *n < 0 || *n > u32::MAX as i64 {
                        return None;
                    }
                    Some(*n as u32)
                },
                _ => {
                    return None;
                },
            },
            None => None,
        };
        if !rd.done() {
            return None;
        }
        let x = ScheduleOn { year: f_year, month: f_month, day: f_day, weekday: f_weekday, hour: f_hour, minute: f_minute, second: f_second };
        proof {
            assert(x.spec_encode() == v@);
            x.lemma_encode_accepted();
        }
        Some(x)
    }
}
impl BridgeDto for Schedule {
    open spec fn spec_encode(self) -> ValueView {
        match self {
            Schedule::On { on, allow_while_idle } => {
                let fs = Seq::<(Seq<char>, ValueView)>::empty();
                let fs = fs.push(("on"@, on.spec_encode()));
                let fs = fs.push(("allowWhileIdle"@, ValueView::Bool(allow_while_idle)));
                ValueView::Obj(fs)
            },
            Schedule::At { at_epoch_millis, repeats, allow_while_idle } => {
                let fs = Seq::<(Seq<char>, ValueView)>::empty();
                let fs = fs.push(("at"@, ValueView::Int(at_epoch_millis as int)));
                let fs = fs.push(("repeats"@, ValueView::Bool(repeats)));
                let fs = fs.push(("allowWhileIdle"@, ValueView::Bool(allow_while_idle)));
                ValueView::Obj(fs)
            },
            Schedule::Every { every, count, allow_while_idle } => {
                let fs = Seq::<(Seq<char>, ValueView)>::empty();
                let fs = fs.push(("every"@, every.spec_encode()));
                let fs = fs.push(("count"@, ValueView::Int(count as int)));
                let fs = fs.push(("allowWhileIdle"@, ValueView::Bool(allow_while_idle)));
                ValueView::Obj(fs)
            },
        }
    }

    open spec fn spec_accepts(m: ValueView) -> bool {
        &&& m matches ValueView::Obj(fs)
        &&& {
            ||| match req_field(fs, 0, "on"@) {
                Some((v0, i0)) => ScheduleOn::spec_accepts(v0) && {
                    match req_field(fs, i0, "allowWhileIdle"@) {
                        Some((v1, i1)) => v1 is Bool && i1 == fs.len(),
                        None => false,
                    }
                },
                None => false,
            }
            ||| match req_field(fs, 0, "at"@) {
                Some((v0, i0)) => (v0 matches ValueView::Int(n) && i64::MIN as int <= n
                    <= i64::MAX as int) && {
                    match req_field(fs, i0, "repeats"@) {
                        Some((v1, i1)) => v1 is Bool && {
                            match req_field(fs, i1, "allowWhileIdle"@) {
                                Some((v2, i2)) => v2 is Bool && i2 == fs.len(),
                                None => false,
                            }
                        },
                        None => false,
                    }
                },
                None => false,
            }
            ||| match req_field(fs, 0, "every"@) {
                Some((v0, i0)) => ScheduleEvery::spec_accepts(v0) && {
                    match req_field(fs, i0, "count"@) {
                        Some((v1, i1)) => (v1 matches ValueView::Int(n) && 0 <= n
                            <= u32::MAX as int) && {
                            match req_field(fs, i1, "allowWhileIdle"@) {
                                Some((v2, i2)) => v2 is Bool && i2 == fs.len(),
                                None => false,
                            }
                        },
                        None => false,
                    }
                },
                None => false,
            }
        }
    }

    open spec fn spec_typename() -> Seq<char> {
        "Schedule"@
    }

    proof fn lemma_encode_accepted(&self) {
        match self {
            Schedule::On { on, allow_while_idle } => {
                on.lemma_encode_accepted();
            },
            Schedule::At { .. } => {},
            Schedule::Every { every, .. } => {
                every.lemma_encode_accepted();
            },
        }
    }

    fn typename() -> (r: &'static str) {
        "Schedule"
    }

    fn to_bridge(&self) -> (r: Value) {
        match self {
            Schedule::On { on, allow_while_idle } => {
                let mut b = ObjBuilder::new();
                b.put("on", on.to_bridge());
                b.put("allowWhileIdle", Value::Bool(*allow_while_idle));
                proof {
                    assert(self.spec_encode() == ValueView::Obj(b@));
                }
                b.finish()
            },
            Schedule::At { at_epoch_millis, repeats, allow_while_idle } => {
                let mut b = ObjBuilder::new();
                b.put("at", Value::Int(*at_epoch_millis));
                b.put("repeats", Value::Bool(*repeats));
                b.put("allowWhileIdle", Value::Bool(*allow_while_idle));
                proof {
                    assert(self.spec_encode() == ValueView::Obj(b@));
                }
                b.finish()
            },
            Schedule::Every { every, count, allow_while_idle } => {
                let mut b = ObjBuilder::new();
                b.put("every", every.to_bridge());
                b.put("count", Value::Int(*count as i64));
                b.put("allowWhileIdle", Value::Bool(*allow_while_idle));
                proof {
                    assert(self.spec_encode() == ValueView::Obj(b@));
                }
                b.finish()
            },
        }
    }

    fn from_bridge(v: &Value) -> (r: Option<Self>) {
        proof {
            reveal_strlit("on");
            reveal_strlit("at");
            reveal_strlit("every");
            assert(("on"@) != ("at"@)) by {
                if ("on"@) == ("at"@) {
                    assert(("on"@)[0] == ("at"@)[0]);
                }
            }
            assert(("on"@) != ("every"@)) by {
                assert(("on"@).len() == 2);
                assert(("every"@).len() == 5);
            }
            assert(("at"@) != ("every"@)) by {
                assert(("at"@).len() == 2);
                assert(("every"@).len() == 5);
            }
        }
        let mut rd = match ObjReader::start(v) {
            Some(rd) => rd,
            None => {
                return None;
            },
        };
        match rd.req("on") {
            Some(vv) => {
                let on = match ScheduleOn::from_bridge(vv) {
                    Some(y) => y,
                    None => {
                        return None;
                    },
                };
                let awi: bool = match rd.req("allowWhileIdle") {
                    Some(bv) => match bv {
                        Value::Bool(bb) => *bb,
                        _ => {
                            return None;
                        },
                    },
                    None => {
                        return None;
                    },
                };
                if !rd.done() {
                    return None;
                }
                let x = Schedule::On { on, allow_while_idle: awi };
                proof {
                    assert(x.spec_encode() == v@);
                }
                Some(x)
            },
            None => {
                let mut rd = match ObjReader::start(v) {
                    Some(rd) => rd,
                    None => {
                        return None;
                    },
                };
                match rd.req("at") {
                    Some(vv) => {
                        let at_ms: i64 = match vv {
                            Value::Int(n) => *n,
                            _ => {
                                return None;
                            },
                        };
                        let repeats: bool = match rd.req("repeats") {
                            Some(bv) => match bv {
                                Value::Bool(bb) => *bb,
                                _ => {
                                    return None;
                                },
                            },
                            None => {
                                return None;
                            },
                        };
                        let awi: bool = match rd.req("allowWhileIdle") {
                            Some(bv) => match bv {
                                Value::Bool(bb) => *bb,
                                _ => {
                                    return None;
                                },
                            },
                            None => {
                                return None;
                            },
                        };
                        if !rd.done() {
                            return None;
                        }
                        let x = Schedule::At {
                            at_epoch_millis: at_ms,
                            repeats,
                            allow_while_idle: awi,
                        };
                        proof {
                            assert(x.spec_encode() == v@);
                        }
                        Some(x)
                    },
                    None => {
                        let mut rd = match ObjReader::start(v) {
                            Some(rd) => rd,
                            None => {
                                return None;
                            },
                        };
                        match rd.req("every") {
                            Some(vv) => {
                                let every = match ScheduleEvery::from_bridge(vv) {
                                    Some(y) => y,
                                    None => {
                                        return None;
                                    },
                                };
                                let count: u32 = match rd.req("count") {
                                    Some(nv) => match nv {
                                        Value::Int(n) => {
                                            if *n < 0 || *n > u32::MAX as i64 {
                                                return None;
                                            }
                                            *n as u32
                                        },
                                        _ => {
                                            return None;
                                        },
                                    },
                                    None => {
                                        return None;
                                    },
                                };
                                let awi: bool = match rd.req("allowWhileIdle") {
                                    Some(bv) => match bv {
                                        Value::Bool(bb) => *bb,
                                        _ => {
                                            return None;
                                        },
                                    },
                                    None => {
                                        return None;
                                    },
                                };
                                if !rd.done() {
                                    return None;
                                }
                                let x = Schedule::Every {
                                    every,
                                    count,
                                    allow_while_idle: awi,
                                };
                                proof {
                                    assert(x.spec_encode() == v@);
                                }
                                Some(x)
                            },
                            None => None,
                        }
                    },
                }
            },
        }
    }
}

impl BridgeDto for RegisterActionTypesOptions {
    open spec fn spec_encode(self) -> ValueView {
        let fs = Seq::<(Seq<char>, ValueView)>::empty();
        let fs = fs.push(("types"@, spec_encode_seq(self.types@)));
        ValueView::Obj(fs)
    }

    open spec fn spec_accepts(m: ValueView) -> bool {
        &&& m matches ValueView::Obj(fs)
        &&& {
            match req_field(fs, 0, "types"@) {
                Some((v0, i0)) => spec_accepts_seq::<ActionType>(v0) && {
                    i0 == fs.len()
                },
                None => false,
            }
        }
    }

    open spec fn spec_typename() -> Seq<char> {
        "RegisterActionTypesOptions"@
    }

    proof fn lemma_encode_accepted(&self) {
        lemma_seq_encode_accepted(self.types@);
    }

    fn typename() -> (r: &'static str) {
        "RegisterActionTypesOptions"
    }

    fn to_bridge(&self) -> (r: Value) {
        let mut b = ObjBuilder::new();
        b.put("types", encode_seq(&self.types));
        proof {
            assert(self.spec_encode() == ValueView::Obj(b@));
        }
        b.finish()
    }

    fn from_bridge(v: &Value) -> (r: Option<Self>) {
        let mut rd = match ObjReader::start(v) {
            Some(rd) => rd,
            None => {
                return None;
            },
        };
        let f_types: Vec<ActionType> = match rd.req("types") {
            Some(vv) => match decode_seq::<ActionType>(vv) {
                Some(ys) => ys,
                None => {
                    return None;
                },
            },
            None => {
                return None;
            },
        };
        if !rd.done() {
            return None;
        }
        let x = RegisterActionTypesOptions { types: f_types };
        proof {
            assert(x.spec_encode() == v@);
            x.lemma_encode_accepted();
        }
        Some(x)
    }
}
impl BridgeDto for Action {
    open spec fn spec_encode(self) -> ValueView {
        let fs = Seq::<(Seq<char>, ValueView)>::empty();
        let fs = fs.push(("id"@, ValueView::Str(self.id@)));
        let fs = fs.push(("title"@, ValueView::Str(self.title@)));
        ValueView::Obj(fs)
    }

    open spec fn spec_accepts(m: ValueView) -> bool {
        &&& m matches ValueView::Obj(fs)
        &&& {
            match req_field(fs, 0, "id"@) {
                Some((v0, i0)) => v0 is Str && {
                    match req_field(fs, i0, "title"@) {
                        Some((v1, i1)) => v1 is Str && {
                            i1 == fs.len()
                        },
                        None => false,
                    }
                },
                None => false,
            }
        }
    }

    open spec fn spec_typename() -> Seq<char> {
        "Action"@
    }

    proof fn lemma_encode_accepted(&self) {
    }

    fn typename() -> (r: &'static str) {
        "Action"
    }

    fn to_bridge(&self) -> (r: Value) {
        let mut b = ObjBuilder::new();
        b.put("id", Value::Str(self.id.clone()));
        b.put("title", Value::Str(self.title.clone()));
        proof {
            assert(self.spec_encode() == ValueView::Obj(b@));
        }
        b.finish()
    }

    fn from_bridge(v: &Value) -> (r: Option<Self>) {
        let mut rd = match ObjReader::start(v) {
            Some(rd) => rd,
            None => {
                return None;
            },
        };
        let f_id: String = match rd.req("id") {
            Some(vv) => match vv {
                Value::Str(s) => s.clone(),
                _ => {
                    return None;
                },
            },
            None => {
                return None;
            },
        };
        let f_title: String = match rd.req("title") {
            Some(vv) => match vv {
                Value::Str(s) => s.clone(),
                _ => {
                    return None;
                },
            },
            None => {
                return None;
            },
        };
        if !rd.done() {
            return None;
        }
        let x = Action { id: f_id, title: f_title };
        proof {
            assert(x.spec_encode() == v@);
            x.lemma_encode_accepted();
        }
        Some(x)
    }
}
impl BridgeDto for EnabledResult {
    open spec fn spec_encode(self) -> ValueView {
        let fs = Seq::<(Seq<char>, ValueView)>::empty();
        let fs = fs.push(("value"@, ValueView::Bool(self.value)));
        ValueView::Obj(fs)
    }

    open spec fn spec_accepts(m: ValueView) -> bool {
        &&& m matches ValueView::Obj(fs)
        &&& {
            match req_field(fs, 0, "value"@) {
                Some((v0, i0)) => v0 is Bool && {
                    i0 == fs.len()
                },
                None => false,
            }
        }
    }

    open spec fn spec_typename() -> Seq<char> {
        "EnabledResult"@
    }

    proof fn lemma_encode_accepted(&self) {
    }

    fn typename() -> (r: &'static str) {
        "EnabledResult"
    }

    fn to_bridge(&self) -> (r: Value) {
        let mut b = ObjBuilder::new();
        b.put("value", Value::Bool(self.value));
        proof {
            assert(self.spec_encode() == ValueView::Obj(b@));
        }
        b.finish()
    }

    fn from_bridge(v: &Value) -> (r: Option<Self>) {
        let mut rd = match ObjReader::start(v) {
            Some(rd) => rd,
            None => {
                return None;
            },
        };
        let f_value: bool = match rd.req("value") {
            Some(vv) => match vv {
                Value::Bool(bb) => *bb,
                _ => {
                    return None;
                },
            },
            None => {
                return None;
            },
        };
        if !rd.done() {
            return None;
        }
        let x = EnabledResult { value: f_value };
        proof {
            assert(x.spec_encode() == v@);
            x.lemma_encode_accepted();
        }
        Some(x)
    }
}
impl BridgeDto for PermissionStatus {
    open spec fn spec_encode(self) -> ValueView {
        let fs = Seq::<(Seq<char>, ValueView)>::empty();
        let fs = fs.push(("display"@, encode_of::<PermissionState>(self.display)));
        ValueView::Obj(fs)
    }

    open spec fn spec_accepts(m: ValueView) -> bool {
        &&& m matches ValueView::Obj(fs)
        &&& {
            match req_field(fs, 0, "display"@) {
                Some((v0, i0)) => accepts_of::<PermissionState>(v0) && {
                    i0 == fs.len()
                },
                None => false,
            }
        }
    }

    open spec fn spec_typename() -> Seq<char> {
        "PermissionStatus"@
    }

    proof fn lemma_encode_accepted(&self) {
        lemma_encode_of_accepted::<PermissionState>(self.display);
    }

    fn typename() -> (r: &'static str) {
        "PermissionStatus"
    }

    fn to_bridge(&self) -> (r: Value) {
        let mut b = ObjBuilder::new();
        proof {
            lemma_encode_of::<PermissionState>(self.display);
        }
        b.put("display", self.display.to_bridge());
        proof {
            assert(self.spec_encode() == ValueView::Obj(b@));
        }
        b.finish()
    }

    fn from_bridge(v: &Value) -> (r: Option<Self>) {
        let mut rd = match ObjReader::start(v) {
            Some(rd) => rd,
            None => {
                return None;
            },
        };
        let f_display: PermissionState = match rd.req("display") {
            Some(vv) => match PermissionState::from_bridge(vv) {
                Some(y) => {
                    proof {
                        lemma_accepts_of::<PermissionState>(vv@);
                        lemma_encode_of::<PermissionState>(y);
                    }
                    y
                },
                None => {
                    proof {
                        lemma_accepts_of::<PermissionState>(vv@);
                    }
                    return None;
                },
            },
            None => {
                return None;
            },
        };
        if !rd.done() {
            return None;
        }
        let x = PermissionStatus { display: f_display };
        proof {
            assert(x.spec_encode() == v@);
            x.lemma_encode_accepted();
        }
        Some(x)
    }
}
impl BridgeDto for ActionType {
    open spec fn spec_encode(self) -> ValueView {
        let fs = Seq::<(Seq<char>, ValueView)>::empty();
        let fs = fs.push(("id"@, ValueView::Str(self.id@)));
        let fs = fs.push(("actions"@, spec_encode_seq(self.actions@)));
        ValueView::Obj(fs)
    }

    open spec fn spec_accepts(m: ValueView) -> bool {
        &&& m matches ValueView::Obj(fs)
        &&& {
            match req_field(fs, 0, "id"@) {
                Some((v0, i0)) => v0 is Str && {
                    match req_field(fs, i0, "actions"@) {
                        Some((v1, i1)) => spec_accepts_seq::<Action>(v1) && {
                            i1 == fs.len()
                        },
                        None => false,
                    }
                },
                None => false,
            }
        }
    }

    open spec fn spec_typename() -> Seq<char> {
        "ActionType"@
    }

    proof fn lemma_encode_accepted(&self) {
        lemma_seq_encode_accepted(self.actions@);
    }

    fn typename() -> (r: &'static str) {
        "ActionType"
    }

    fn to_bridge(&self) -> (r: Value) {
        let mut b = ObjBuilder::new();
        b.put("id", Value::Str(self.id.clone()));
        b.put("actions", encode_seq(&self.actions));
        proof {
            assert(self.spec_encode() == ValueView::Obj(b@));
        }
        b.finish()
    }

    fn from_bridge(v: &Value) -> (r: Option<Self>) {
        let mut rd = match ObjReader::start(v) {
            Some(rd) => rd,
            None => {
                return None;
            },
        };
        let f_id: String = match rd.req("id") {
            Some(vv) => match vv {
                Value::Str(s) => s.clone(),
                _ => {
                    return None;
                },
            },
            None => {
                return None;
            },
        };
        let f_actions: Vec<Action> = match rd.req("actions") {
            Some(vv) => match decode_seq::<Action>(vv) {
                Some(ys) => ys,
                None => {
                    return None;
                },
            },
            None => {
                return None;
            },
        };
        if !rd.done() {
            return None;
        }
        let x = ActionType { id: f_id, actions: f_actions };
        proof {
            assert(x.spec_encode() == v@);
            x.lemma_encode_accepted();
        }
        Some(x)
    }
}
impl BridgeDto for ScheduleResult {
    open spec fn spec_encode(self) -> ValueView {
        let fs = Seq::<(Seq<char>, ValueView)>::empty();
        let fs = fs.push(("notifications"@, spec_encode_seq(self.notifications@)));
        ValueView::Obj(fs)
    }

    open spec fn spec_accepts(m: ValueView) -> bool {
        &&& m matches ValueView::Obj(fs)
        &&& {
            match req_field(fs, 0, "notifications"@) {
                Some((v0, i0)) => spec_accepts_seq::<LocalNotificationDescriptor>(v0) && {
                    i0 == fs.len()
                },
                None => false,
            }
        }
    }

    open spec fn spec_typename() -> Seq<char> {
        "ScheduleResult"@
    }

    proof fn lemma_encode_accepted(&self) {
        lemma_seq_encode_accepted(self.notifications@);
    }

    fn typename() -> (r: &'static str) {
        "ScheduleResult"
    }

    fn to_bridge(&self) -> (r: Value) {
        let mut b = ObjBuilder::new();
        b.put("notifications", encode_seq(&self.notifications));
        proof {
            assert(self.spec_encode() == ValueView::Obj(b@));
        }
        b.finish()
    }

    fn from_bridge(v: &Value) -> (r: Option<Self>) {
        let mut rd = match ObjReader::start(v) {
            Some(rd) => rd,
            None => {
                return None;
            },
        };
        let f_notifications: Vec<LocalNotificationDescriptor> = match rd.req("notifications") {
            Some(vv) => match decode_seq::<LocalNotificationDescriptor>(vv) {
                Some(ys) => ys,
                None => {
                    return None;
                },
            },
            None => {
                return None;
            },
        };
        if !rd.done() {
            return None;
        }
        let x = ScheduleResult { notifications: f_notifications };
        proof {
            assert(x.spec_encode() == v@);
            x.lemma_encode_accepted();
        }
        Some(x)
    }
}
impl BridgeDto for CancelOptions {
    open spec fn spec_encode(self) -> ValueView {
        let fs = Seq::<(Seq<char>, ValueView)>::empty();
        let fs = fs.push(("notifications"@, spec_encode_seq(self.notifications@)));
        ValueView::Obj(fs)
    }

    open spec fn spec_accepts(m: ValueView) -> bool {
        &&& m matches ValueView::Obj(fs)
        &&& {
            match req_field(fs, 0, "notifications"@) {
                Some((v0, i0)) => spec_accepts_seq::<LocalNotificationDescriptor>(v0) && {
                    i0 == fs.len()
                },
                None => false,
            }
        }
    }

    open spec fn spec_typename() -> Seq<char> {
        "CancelOptions"@
    }

    proof fn lemma_encode_accepted(&self) {
        lemma_seq_encode_accepted(self.notifications@);
    }

    fn typename() -> (r: &'static str) {
        "CancelOptions"
    }

    fn to_bridge(&self) -> (r: Value) {
        let mut b = ObjBuilder::new();
        b.put("notifications", encode_seq(&self.notifications));
        proof {
            assert(self.spec_encode() == ValueView::Obj(b@));
        }
        b.finish()
    }

    fn from_bridge(v: &Value) -> (r: Option<Self>) {
        let mut rd = match ObjReader::start(v) {
            Some(rd) => rd,
            None => {
                return None;
            },
        };
        let f_notifications: Vec<LocalNotificationDescriptor> = match rd.req("notifications") {
            Some(vv) => match decode_seq::<LocalNotificationDescriptor>(vv) {
                Some(ys) => ys,
                None => {
                    return None;
                },
            },
            None => {
                return None;
            },
        };
        if !rd.done() {
            return None;
        }
        let x = CancelOptions { notifications: f_notifications };
        proof {
            assert(x.spec_encode() == v@);
            x.lemma_encode_accepted();
        }
        Some(x)
    }
}
impl BridgeDto for LocalNotificationDescriptor {
    open spec fn spec_encode(self) -> ValueView {
        let fs = Seq::<(Seq<char>, ValueView)>::empty();
        let fs = fs.push(("id"@, ValueView::Int(self.id as int)));
        ValueView::Obj(fs)
    }

    open spec fn spec_accepts(m: ValueView) -> bool {
        &&& m matches ValueView::Obj(fs)
        &&& {
            match req_field(fs, 0, "id"@) {
                Some((v0, i0)) => (v0 matches ValueView::Int(n) && i32::MIN as int <= n <= i32::MAX as int) && {
                    i0 == fs.len()
                },
                None => false,
            }
        }
    }

    open spec fn spec_typename() -> Seq<char> {
        "LocalNotificationDescriptor"@
    }

    proof fn lemma_encode_accepted(&self) {
    }

    fn typename() -> (r: &'static str) {
        "LocalNotificationDescriptor"
    }

    fn to_bridge(&self) -> (r: Value) {
        let mut b = ObjBuilder::new();
        b.put("id", Value::Int(self.id as i64));
        proof {
            assert(self.spec_encode() == ValueView::Obj(b@));
        }
        b.finish()
    }

    fn from_bridge(v: &Value) -> (r: Option<Self>) {
        let mut rd = match ObjReader::start(v) {
            Some(rd) => rd,
            None => {
                return None;
            },
        };
        let f_id: i32 = match rd.req("id") {
            Some(vv) => match vv {
                Value::Int(n) => {
                    if *n < i32::MIN as i64 || *n > i32::MAX as i64 {
                        return None;
                    }
                    *n as i32
                },
                _ => {
                    return None;
                },
            },
            None => {
                return None;
            },
        };
        if !rd.done() {
            return None;
        }
        let x = LocalNotificationDescriptor { id: f_id };
        proof {
            assert(x.spec_encode() == v@);
            x.lemma_encode_accepted();
        }
        Some(x)
    }
}
impl BridgeDto for DeliveredNotifications {
    open spec fn spec_encode(self) -> ValueView {
        let fs = Seq::<(Seq<char>, ValueView)>::empty();
        let fs = fs.push(("notifications"@, spec_encode_seq(self.notifications@)));
        ValueView::Obj(fs)
    }

    open spec fn spec_accepts(m: ValueView) -> bool {
        &&& m matches ValueView::Obj(fs)
        &&& {
            match req_field(fs, 0, "notifications"@) {
                Some((v0, i0)) => spec_accepts_seq::<DeliveredNotificationSchema>(v0) && {
                    i0 == fs.len()
                },
                None => false,
            }
        }
    }

    open spec fn spec_typename() -> Seq<char> {
        "DeliveredNotifications"@
    }

    proof fn lemma_encode_accepted(&self) {
        lemma_seq_encode_accepted(self.notifications@);
    }

    fn typename() -> (r: &'static str) {
        "DeliveredNotifications"
    }

    fn to_bridge(&self) -> (r: Value) {
        let mut b = ObjBuilder::new();
        b.put("notifications", encode_seq(&self.notifications));
        proof {
            assert(self.spec_encode() == ValueView::Obj(b@));
        }
        b.finish()
    }

    fn from_bridge(v: &Value) -> (r: Option<Self>) {
        let mut rd = match ObjReader::start(v) {
            Some(rd) => rd,
            None => {
                return None;
            },
        };
        let f_notifications: Vec<DeliveredNotificationSchema> = match rd.req("notifications") {
            Some(vv) => match decode_seq::<DeliveredNotificationSchema>(vv) {
                Some(ys) => ys,
                None => {
                    return None;
                },
            },
            None => {
                return None;
            },
        };
        if !rd.done() {
            return None;
        }
        let x = DeliveredNotifications { notifications: f_notifications };
        proof {
            assert(x.spec_encode() == v@);
            x.lemma_encode_accepted();
        }
        Some(x)
    }
}
impl BridgeDto for DeliveredNotificationSchema {
    open spec fn spec_encode(self) -> ValueView {
        let fs = Seq::<(Seq<char>, ValueView)>::empty();
        let fs = fs.push(("id"@, ValueView::Int(self.id as int)));
        let fs = if self.tag is Some { fs.push(("tag"@, ValueView::Str((self.tag->0)@))) } else { fs };
        let fs = fs.push(("title"@, ValueView::Str(self.title@)));
        let fs = fs.push(("body"@, ValueView::Str(self.body@)));
        let fs = if self.group is Some { fs.push(("group"@, ValueView::Str((self.group->0)@))) } else { fs };
        let fs = if self.group_summary is Some { fs.push(("groupSummary"@, ValueView::Bool((self.group_summary->0)))) } else { fs };
        ValueView::Obj(fs)
    }

    open spec fn spec_accepts(m: ValueView) -> bool {
        &&& m matches ValueView::Obj(fs)
        &&& {
            match req_field(fs, 0, "id"@) {
                Some((v0, i0)) => (v0 matches ValueView::Int(n) && i32::MIN as int <= n <= i32::MAX as int) && {
                    let (o1, i1) = opt_field(fs, i0, "tag"@);
                    (match o1 { Some(w) => w is Str, None => true }) && {
                        match req_field(fs, i1, "title"@) {
                            Some((v2, i2)) => v2 is Str && {
                                match req_field(fs, i2, "body"@) {
                                    Some((v3, i3)) => v3 is Str && {
                                        let (o4, i4) = opt_field(fs, i3, "group"@);
                                        (match o4 { Some(w) => w is Str, None => true }) && {
                                            let (o5, i5) = opt_field(fs, i4, "groupSummary"@);
                                            (match o5 { Some(w) => w is Bool, None => true }) && {
                                                i5 == fs.len()
                                            }
                                        }
                                    },
                                    None => false,
                                }
                            },
                            None => false,
                        }
                    }
                },
                None => false,
            }
        }
    }

    open spec fn spec_typename() -> Seq<char> {
        "DeliveredNotificationSchema"@
    }

    proof fn lemma_encode_accepted(&self) {
        reveal_strlit("body");
        reveal_strlit("group");
        reveal_strlit("groupSummary");
        reveal_strlit("tag");
        reveal_strlit("title");
        assert(("tag"@) != ("title"@)) by {
            assert(("tag"@).len() == 3);
            assert(("title"@).len() == 5);
        }
        assert(("tag"@) != ("body"@)) by {
            assert(("tag"@).len() == 3);
            assert(("body"@).len() == 4);
        }
        assert(("tag"@) != ("groupSummary"@)) by {
            assert(("tag"@).len() == 3);
            assert(("groupSummary"@).len() == 12);
        }
        assert(("group"@) != ("groupSummary"@)) by {
            assert(("group"@).len() == 5);
            assert(("groupSummary"@).len() == 12);
        }
    }

    fn typename() -> (r: &'static str) {
        "DeliveredNotificationSchema"
    }

    fn to_bridge(&self) -> (r: Value) {
        let mut b = ObjBuilder::new();
        b.put("id", Value::Int(self.id as i64));
        match &self.tag {
            Some(x) => {
                b.put("tag", Value::Str(x.clone()));
            },
            None => {},
        }
        b.put("title", Value::Str(self.title.clone()));
        b.put("body", Value::Str(self.body.clone()));
        match &self.group {
            Some(x) => {
                b.put("group", Value::Str(x.clone()));
            },
            None => {},
        }
        match &self.group_summary {
            Some(x) => {
                b.put("groupSummary", Value::Bool(*x));
            },
            None => {},
        }
        proof {
            assert(self.spec_encode() == ValueView::Obj(b@));
        }
        b.finish()
    }

    fn from_bridge(v: &Value) -> (r: Option<Self>) {
        let mut rd = match ObjReader::start(v) {
            Some(rd) => rd,
            None => {
                return None;
            },
        };
        let f_id: i32 = match rd.req("id") {
            Some(vv) => match vv {
                Value::Int(n) => {
                    if *n < i32::MIN as i64 || *n > i32::MAX as i64 {
                        return None;
                    }
                    *n as i32
                },
                _ => {
                    return None;
                },
            },
            None => {
                return None;
            },
        };
        let f_tag: Option<String> = match rd.opt("tag") {
            Some(vv) => match vv {
                Value::Str(s) => Some(s.clone()),
                _ => {
                    return None;
                },
            },
            None => None,
        };
        let f_title: String = match rd.req("title") {
            Some(vv) => match vv {
                Value::Str(s) => s.clone(),
                _ => {
                    return None;
                },
            },
            None => {
                return None;
            },
        };
        let f_body: String = match rd.req("body") {
            Some(vv) => match vv {
                Value::Str(s) => s.clone(),
                _ => {
                    return None;
                },
            },
            None => {
                return None;
            },
        };
        let f_group: Option<String> = match rd.opt("group") {
            Some(vv) => match vv {
                Value::Str(s) => Some(s.clone()),
                _ => {
                    return None;
                },
            },
            None => None,
        };
        let f_group_summary: Option<bool> = match rd.opt("groupSummary") {
            Some(vv) => match vv {
                Value::Bool(bb) => Some(*bb),
                _ => {
                    return None;
                },
            },
            None => None,
        };
        if !rd.done() {
            return None;
        }
        let x = DeliveredNotificationSchema { id: f_id, tag: f_tag, title: f_title, body: f_body, group: f_group, group_summary: f_group_summary };
        proof {
            assert(x.spec_encode() == v@);
            x.lemma_encode_accepted();
        }
        Some(x)
    }
}
impl ActionPerformed {
    /// Whether the performed action was a plain tap on the notification.
    pub fn is_tap(&self) -> (r: bool)
        ensures
            r == (self.action_id@ == "tap"@),
    {
        str_eq(self.action_id.as_str(), "tap")
    }
}

impl Default for ScheduleOn {
    /// A calendar match with every field absent: it matches anything.
    fn default() -> (r: Self)
        ensures
            r.year is None,
            r.month is None,
            r.day is None,
            r.weekday is None,
            r.hour is None,
            r.minute is None,
            r.second is None,
    {
        ScheduleOn {
            year: None,
            month: None,
            day: None,
            weekday: None,
            hour: None,
            minute: None,
            second: None,
        }
    }
}

impl Default for LocalNotificationSchema {
    /// An empty notification scheduled on an any-time calendar match, with
    /// every optional field absent.
    fn default() -> (r: Self)
        ensures
            r.title@ == Seq::<char>::empty(),
            r.body@ == Seq::<char>::empty(),
            r.schedule matches Schedule::On { on, allow_while_idle } && on.year is None
                && on.month is None && on.day is None && on.weekday is None && on.hour is None
                && on.minute is None && on.second is None && allow_while_idle == false,
            r.large_body is None,
            r.summary_text is None,
            r.id == 0i32,
            r.ongoing == false,
            r.auto_cancel == false,
            r.inbox_list is None,
            r.small_icon is None,
            r.large_icon is None,
            r.icon_color is None,
            r.action_type_id is None,
            r.group is None,
            r.group_summary is None,
            r.sound is None,
            r.thread_identifier is None,
            r.summary_argument is None,
            r.channel_id is None,
    {
        LocalNotificationSchema {
            title: String::new(),
            body: String::new(),
            schedule: Schedule::On { on: ScheduleOn::default(), allow_while_idle: false },
            large_body: None,
            summary_text: None,
            id: 0,
            ongoing: false,
            auto_cancel: false,
            inbox_list: None,
            small_icon: None,
            large_icon: None,
            icon_color: None,
            action_type_id: None,
            group: None,
            group_summary: None,
            sound: None,
            thread_identifier: None,
            summary_argument: None,
            channel_id: None,
        }
    }
}


/// The three leading required fields of a notification's encoding: title,
/// body and schedule.  Yields the cursor after them.
#[verifier::opaque]
pub open spec fn schema_head_a(fs: Seq<(Seq<char>, ValueView)>) -> Option<int> {
    match req_field(fs, 0, "title"@) {
        Some((v0, i0)) => if v0 is Str {
            match req_field(fs, i0, "body"@) {
                Some((v1, i1)) => if v1 is Str {
                    match req_field(fs, i1, "schedule"@) {
                        Some((v2, i2)) => if accepts_of::<Schedule>(v2) {
                            Some(i2)
                        } else {
                            None
                        },
                        None => None,
                    }
                } else {
                    None
                },
                None => None,
            }
        } else {
            None
        },
        None => None,
    }
}

/// The optional long texts, identifier, flags and inbox list of a
/// notification's encoding.  Yields the cursor after them.
#[verifier::opaque]
pub open spec fn schema_head_b(fs: Seq<(Seq<char>, ValueView)>, i: int) -> Option<int> {
    let (o3, i3) = opt_field(fs, i, "largeBody"@);
    if (match o3 { Some(w) => w is Str, None => true }) {
        let (o4, i4) = opt_field(fs, i3, "summaryText"@);
        if (match o4 { Some(w) => w is Str, None => true }) {
            match req_field(fs, i4, "id"@) {
                Some((v5, i5)) => if (v5 matches ValueView::Int(n) && i32::MIN as int <= n
                    <= i32::MAX as int) {
                    match req_field(fs, i5, "ongoing"@) {
                        Some((v6, i6)) => if v6 is Bool {
                            match req_field(fs, i6, "autoCancel"@) {
                                Some((v7, i7)) => if v7 is Bool {
                                    let (o8, i8) = opt_field(fs, i7, "inboxList"@);
                                    if (match o8 {
                                        Some(w) => spec_accepts_strs(w),
                                        None => true,
                                    }) {
                                        Some(i8)
                                    } else {
                                        None
                                    }
                                } else {
                                    None
                                },
                                None => None,
                            }
                        } else {
                            None
                        },
                        None => None,
                    }
                } else {
                    None
                },
                None => None,
            }
        } else {
            None
        }
    } else {
        None
    }
}

/// The first half of a notification's wire object.  Yields the cursor where
/// the trailing text fields start.
pub open spec fn schema_head(fs: Seq<(Seq<char>, ValueView)>) -> Option<int> {
    match schema_head_a(fs) {
        Some(i) => schema_head_b(fs, i),
        None => None,
    }
}

/// The first five trailing optional text fields of a notification's
/// encoding.  Yields the cursor after them.
#[verifier::opaque]
pub open spec fn schema_tail_a(fs: Seq<(Seq<char>, ValueView)>, i: int) -> Option<int> {
    let (o0, i0) = opt_field(fs, i, "smallIcon"@);
    if (match o0 { Some(w) => w is Str, None => true }) {
        let (o1, i1) = opt_field(fs, i0, "largeIcon"@);
        if (match o1 { Some(w) => w is Str, None => true }) {
            let (o2, i2) = opt_field(fs, i1, "iconColor"@);
            if (match o2 { Some(w) => w is Str, None => true }) {
                let (o3, i3) = opt_field(fs, i2, "actionTypeId"@);
                if (match o3 { Some(w) => w is Str, None => true }) {
                    let (o4, i4) = opt_field(fs, i3, "group"@);
                    if (match o4 { Some(w) => w is Str, None => true }) {
                        Some(i4)
                    } else {
                        None
                    }
                } else {
                    None
                }
            } else {
                None
            }
        } else {
            None
        }
    } else {
        None
    }
}

/// The last five trailing optional text fields of a notification's
/// encoding, which must reach the end of the object.
#[verifier::opaque]
pub open spec fn schema_tail_b(fs: Seq<(Seq<char>, ValueView)>, i: int) -> bool {
    let (o5, i5) = opt_field(fs, i, "groupSummary"@);
    (match o5 { Some(w) => w is Str, None => true }) && {
        let (o6, i6) = opt_field(fs, i5, "sound"@);
        (match o6 { Some(w) => w is Str, None => true }) && {
            let (o7, i7) = opt_field(fs, i6, "threadIdentifier"@);
            (match o7 { Some(w) => w is Str, None => true }) && {
                let (o8, i8) = opt_field(fs, i7, "summaryArgument"@);
                (match o8 { Some(w) => w is Str, None => true }) && {
                    let (o9, i9) = opt_field(fs, i8, "channelId"@);
                    (match o9 { Some(w) => w is Str, None => true }) && i9 == fs.len()
                }
            }
        }
    }
}

/// The second half of a notification's wire object: the trailing optional
/// text fields, from the given cursor to the end of the object.
pub open spec fn schema_tail(fs: Seq<(Seq<char>, ValueView)>, i: int) -> bool {
    match schema_tail_a(fs, i) {
        Some(j) => schema_tail_b(fs, j),
        None => false,
    }
}

/// The first half of a notification, as read off the wire.
pub struct SchemaHead {
    pub title: String,
    pub body: String,
    pub schedule: Schedule,
    pub large_body: Option<String>,
    pub summary_text: Option<String>,
    pub id: i32,
    pub ongoing: bool,
    pub auto_cancel: bool,
    pub inbox_list: Option<Vec<String>>,
}

/// The second half of a notification, as read off the wire.
pub struct SchemaTail {
    pub small_icon: Option<String>,
    pub large_icon: Option<String>,
    pub icon_color: Option<String>,
    pub action_type_id: Option<String>,
    pub group: Option<String>,
    pub group_summary: Option<String>,
    pub sound: Option<String>,
    pub thread_identifier: Option<String>,
    pub summary_argument: Option<String>,
    pub channel_id: Option<String>,
}

/// The encoded leading required fields.
pub open spec fn head_a_fields(h: SchemaHead) -> Seq<(Seq<char>, ValueView)> {
    let fs = Seq::<(Seq<char>, ValueView)>::empty();
    let fs = fs.push(("title"@, ValueView::Str(h.title@)));
    let fs = fs.push(("body"@, ValueView::Str(h.body@)));
    let fs = fs.push(("schedule"@, encode_of::<Schedule>(h.schedule)));
    fs
}

/// The encoded long texts, identifier, flags and inbox list.
pub open spec fn head_b_fields(h: SchemaHead) -> Seq<(Seq<char>, ValueView)> {
    let fs = Seq::<(Seq<char>, ValueView)>::empty();
    let fs = if h.large_body is Some {
        fs.push(("largeBody"@, ValueView::Str((h.large_body->0)@)))
    } else {
        fs
    };
    let fs = if h.summary_text is Some {
        fs.push(("summaryText"@, ValueView::Str((h.summary_text->0)@)))
    } else {
        fs
    };
    let fs = fs.push(("id"@, ValueView::Int(h.id as int)));
    let fs = fs.push(("ongoing"@, ValueView::Bool(h.ongoing)));
    let fs = fs.push(("autoCancel"@, ValueView::Bool(h.auto_cancel)));
    let fs = if h.inbox_list is Some {
        fs.push(("inboxList"@, spec_encode_strs((h.inbox_list->0)@)))
    } else {
        fs
    };
    fs
}

/// The encoded fields of the first half, in canonical order.
pub open spec fn head_fields(h: SchemaHead) -> Seq<(Seq<char>, ValueView)> {
    head_a_fields(h) + head_b_fields(h)
}

/// The encoded first five trailing text fields.
pub open spec fn tail_a_fields(t: SchemaTail) -> Seq<(Seq<char>, ValueView)> {
    let fs = Seq::<(Seq<char>, ValueView)>::empty();
    let fs = if t.small_icon is Some {
        fs.push(("smallIcon"@, ValueView::Str((t.small_icon->0)@)))
    } else {
        fs
    };
    let fs = if t.large_icon is Some {
        fs.push(("largeIcon"@, ValueView::Str((t.large_icon->0)@)))
    } else {
        fs
    };
    let fs = if t.icon_color is Some {
        fs.push(("iconColor"@, ValueView::Str((t.icon_color->0)@)))
    } else {
        fs
    };
    let fs = if t.action_type_id is Some {
        fs.push(("actionTypeId"@, ValueView::Str((t.action_type_id->0)@)))
    } else {
        fs
    };
    let fs = if t.group is Some {
        fs.push(("group"@, ValueView::Str((t.group->0)@)))
    } else {
        fs
    };
    fs
}

/// The encoded last five trailing text fields.
pub open spec fn tail_b_fields(t: SchemaTail) -> Seq<(Seq<char>, ValueView)> {
    let fs = Seq::<(Seq<char>, ValueView)>::empty();
    let fs = if t.group_summary is Some {
        fs.push(("groupSummary"@, ValueView::Str((t.group_summary->0)@)))
    } else {
        fs
    };
    let fs = if t.sound is Some {
        fs.push(("sound"@, ValueView::Str((t.sound->0)@)))
    } else {
        fs
    };
    let fs = if t.thread_identifier is Some {
        fs.push(("threadIdentifier"@, ValueView::Str((t.thread_identifier->0)@)))
    } else {
        fs
    };
    let fs = if t.summary_argument is Some {
        fs.push(("summaryArgument"@, ValueView::Str((t.summary_argument->0)@)))
    } else {
        fs
    };
    let fs = if t.channel_id is Some {
        fs.push(("channelId"@, ValueView::Str((t.channel_id->0)@)))
    } else {
        fs
    };
    fs
}

/// The encoded fields of the second half, in canonical order.
pub open spec fn tail_fields(t: SchemaTail) -> Seq<(Seq<char>, ValueView)> {
    tail_a_fields(t) + tail_b_fields(t)
}

impl LocalNotificationSchema {
    /// The first half of this notification.
    pub open spec fn head_part(self) -> SchemaHead {
        SchemaHead {
            title: self.title,
            body: self.body,
            schedule: self.schedule,
            large_body: self.large_body,
            summary_text: self.summary_text,
            id: self.id,
            ongoing: self.ongoing,
            auto_cancel: self.auto_cancel,
            inbox_list: self.inbox_list,
        }
    }

    /// The second half of this notification.
    pub open spec fn tail_part(self) -> SchemaTail {
        SchemaTail {
            small_icon: self.small_icon,
            large_icon: self.large_icon,
            icon_color: self.icon_color,
            action_type_id: self.action_type_id,
            group: self.group,
            group_summary: self.group_summary,
            sound: self.sound,
            thread_identifier: self.thread_identifier,
            summary_argument: self.summary_argument,
            channel_id: self.channel_id,
        }
    }
}

/// The field names a probing decoder could confuse: an absent optional
/// field's probe must never match the name it actually sits on.
proof fn lemma_schema_names()
    ensures
        ("largeBody"@) != ("summaryText"@),
        ("largeBody"@) != ("id"@),
        ("summaryText"@) != ("id"@),
        ("inboxList"@) != ("smallIcon"@),
        ("inboxList"@) != ("largeIcon"@),
        ("inboxList"@) != ("iconColor"@),
        ("inboxList"@) != ("actionTypeId"@),
        ("inboxList"@) != ("group"@),
        ("inboxList"@) != ("groupSummary"@),
        ("inboxList"@) != ("sound"@),
        ("inboxList"@) != ("threadIdentifier"@),
        ("inboxList"@) != ("summaryArgument"@),
        ("inboxList"@) != ("channelId"@),
        ("smallIcon"@) != ("largeIcon"@),
        ("smallIcon"@) != ("iconColor"@),
        ("smallIcon"@) != ("actionTypeId"@),
        ("smallIcon"@) != ("group"@),
        ("smallIcon"@) != ("groupSummary"@),
        ("smallIcon"@) != ("sound"@),
        ("smallIcon"@) != ("threadIdentifier"@),
        ("smallIcon"@) != ("summaryArgument"@),
        ("smallIcon"@) != ("channelId"@),
        ("largeIcon"@) != ("iconColor"@),
        ("largeIcon"@) != ("actionTypeId"@),
        ("largeIcon"@) != ("group"@),
        ("largeIcon"@) != ("groupSummary"@),
        ("largeIcon"@) != ("sound"@),
        ("largeIcon"@) != ("threadIdentifier"@),
        ("largeIcon"@) != ("summaryArgument"@),
        ("largeIcon"@) != ("channelId"@),
        ("iconColor"@) != ("actionTypeId"@),
        ("iconColor"@) != ("group"@),
        ("iconColor"@) != ("groupSummary"@),
        ("iconColor"@) != ("sound"@),
        ("iconColor"@) != ("threadIdentifier"@),
        ("iconColor"@) != ("summaryArgument"@),
        ("iconColor"@) != ("channelId"@),
        ("actionTypeId"@) != ("group"@),
        ("actionTypeId"@) != ("groupSummary"@),
        ("actionTypeId"@) != ("sound"@),
        ("actionTypeId"@) != ("threadIdentifier"@),
        ("actionTypeId"@) != ("summaryArgument"@),
        ("actionTypeId"@) != ("channelId"@),
        ("group"@) != ("groupSummary"@),
        ("group"@) != ("sound"@),
        ("group"@) != ("threadIdentifier"@),
        ("group"@) != ("summaryArgument"@),
        ("group"@) != ("channelId"@),
        ("groupSummary"@) != ("sound"@),
        ("groupSummary"@) != ("threadIdentifier"@),
        ("groupSummary"@) != ("summaryArgument"@),
        ("groupSummary"@) != ("channelId"@),
        ("sound"@) != ("threadIdentifier"@),
        ("sound"@) != ("summaryArgument"@),
        ("sound"@) != ("channelId"@),
        ("threadIdentifier"@) != ("summaryArgument"@),
        ("threadIdentifier"@) != ("channelId"@),
        ("summaryArgument"@) != ("channelId"@),
{
    reveal_strlit("actionTypeId");
    reveal_strlit("channelId");
    reveal_strlit("group");
    reveal_strlit("groupSummary");
    reveal_strlit("iconColor");
    reveal_strlit("id");
    reveal_strlit("inboxList");
    reveal_strlit("largeBody");
    reveal_strlit("largeIcon");
    reveal_strlit("smallIcon");
    reveal_strlit("sound");
    reveal_strlit("summaryArgument");
    reveal_strlit("summaryText");
    reveal_strlit("threadIdentifier");
    assert(("largeBody"@) != ("summaryText"@)) by {
        assert(("largeBody"@).len() == 9);
        assert(("summaryText"@).len() == 11);
    }
    assert(("largeBody"@) != ("id"@)) by {
        assert(("largeBody"@).len() == 9);
        assert(("id"@).len() == 2);
    }
    assert(("summaryText"@) != ("id"@)) by {
        assert(("summaryText"@).len() == 11);
        assert(("id"@).len() == 2);
    }
    assert(("inboxList"@) != ("smallIcon"@)) by {
        if ("inboxList"@) == ("smallIcon"@) {
            assert(("inboxList"@)[0] == ("smallIcon"@)[0]);
        }
    }
    assert(("inboxList"@) != ("largeIcon"@)) by {
        if ("inboxList"@) == ("largeIcon"@) {
            assert(("inboxList"@)[0] == ("largeIcon"@)[0]);
        }
    }
    assert(("inboxList"@) != ("iconColor"@)) by {
        if ("inboxList"@) == ("iconColor"@) {
            assert(("inboxList"@)[1] == ("iconColor"@)[1]);
        }
    }
    assert(("inboxList"@) != ("actionTypeId"@)) by {
        assert(("inboxList"@).len() == 9);
        assert(("actionTypeId"@).len() == 12);
    }
    assert(("inboxList"@) != ("group"@)) by {
        assert(("inboxList"@).len() == 9);
        assert(("group"@).len() == 5);
    }
    assert(("inboxList"@) != ("groupSummary"@)) by {
        assert(("inboxList"@).len() == 9);
        assert(("groupSummary"@).len() == 12);
    }
    assert(("inboxList"@) != ("sound"@)) by {
        assert(("inboxList"@).len() == 9);
        assert(("sound"@).len() == 5);
    }
    assert(("inboxList"@) != ("threadIdentifier"@)) by {
        assert(("inboxList"@).len() == 9);
        assert(("threadIdentifier"@).len() == 16);
    }
    assert(("inboxList"@) != ("summaryArgument"@)) by {
        assert(("inboxList"@).len() == 9);
        assert(("summaryArgument"@).len() == 15);
    }
    assert(("inboxList"@) != ("channelId"@)) by {
        if ("inboxList"@) == ("channelId"@) {
            assert(("inboxList"@)[0] == ("channelId"@)[0]);
        }
    }
    assert(("smallIcon"@) != ("largeIcon"@)) by {
        if ("smallIcon"@) == ("largeIcon"@) {
            assert(("smallIcon"@)[0] == ("largeIcon"@)[0]);
        }
    }
    assert(("smallIcon"@) != ("iconColor"@)) by {
        if ("smallIcon"@) == ("iconColor"@) {
            assert(("smallIcon"@)[0] == ("iconColor"@)[0]);
        }
    }
    assert(("smallIcon"@) != ("actionTypeId"@)) by {
        assert(("smallIcon"@).len() == 9);
        assert(("actionTypeId"@).len() == 12);
    }
    assert(("smallIcon"@) != ("group"@)) by {
        assert(("smallIcon"@).len() == 9);
        assert(("group"@).len() == 5);
    }
    assert(("smallIcon"@) != ("groupSummary"@)) by {
        assert(("smallIcon"@).len() == 9);
        assert(("groupSummary"@).len() == 12);
    }
    assert(("smallIcon"@) != ("sound"@)) by {
        assert(("smallIcon"@).len() == 9);
        assert(("sound"@).len() == 5);
    }
    assert(("smallIcon"@) != ("threadIdentifier"@)) by {
        assert(("smallIcon"@).len() == 9);
        assert(("threadIdentifier"@).len() == 16);
    }
    assert(("smallIcon"@) != ("summaryArgument"@)) by {
        assert(("smallIcon"@).len() == 9);
        assert(("summaryArgument"@).len() == 15);
    }
    assert(("smallIcon"@) != ("channelId"@)) by {
        if ("smallIcon"@) == ("channelId"@) {
            assert(("smallIcon"@)[0] == ("channelId"@)[0]);
        }
    }
    assert(("largeIcon"@) != ("iconColor"@)) by {
        if ("largeIcon"@) == ("iconColor"@) {
            assert(("largeIcon"@)[0] == ("iconColor"@)[0]);
        }
    }
    assert(("largeIcon"@) != ("actionTypeId"@)) by {
        assert(("largeIcon"@).len() == 9);
        assert(("actionTypeId"@).len() == 12);
    }
    assert(("largeIcon"@) != ("group"@)) by {
        assert(("largeIcon"@).len() == 9);
        assert(("group"@).len() == 5);
    }
    assert(("largeIcon"@) != ("groupSummary"@)) by {
        assert(("largeIcon"@).len() == 9);
        assert(("groupSummary"@).len() == 12);
    }
    assert(("largeIcon"@) != ("sound"@)) by {
        assert(("largeIcon"@).len() == 9);
        assert(("sound"@).len() == 5);
    }
    assert(("largeIcon"@) != ("threadIdentifier"@)) by {
        assert(("largeIcon"@).len() == 9);
        assert(("threadIdentifier"@).len() == 16);
    }
    assert(("largeIcon"@) != ("summaryArgument"@)) by {
        assert(("largeIcon"@).len() == 9);
        assert(("summaryArgument"@).len() == 15);
    }
    assert(("largeIcon"@) != ("channelId"@)) by {
        if ("largeIcon"@) == ("channelId"@) {
            assert(("largeIcon"@)[0] == ("channelId"@)[0]);
        }
    }
    assert(("iconColor"@) != ("actionTypeId"@)) by {
        assert(("iconColor"@).len() == 9);
        assert(("actionTypeId"@).len() == 12);
    }
    assert(("iconColor"@) != ("group"@)) by {
        assert(("iconColor"@).len() == 9);
        assert(("group"@).len() == 5);
    }
    assert(("iconColor"@) != ("groupSummary"@)) by {
        assert(("iconColor"@).len() == 9);
        assert(("groupSummary"@).len() == 12);
    }
    assert(("iconColor"@) != ("sound"@)) by {
        assert(("iconColor"@).len() == 9);
        assert(("sound"@).len() == 5);
    }
    assert(("iconColor"@) != ("threadIdentifier"@)) by {
        assert(("iconColor"@).len() == 9);
        assert(("threadIdentifier"@).len() == 16);
    }
    assert(("iconColor"@) != ("summaryArgument"@)) by {
        assert(("iconColor"@).len() == 9);
        assert(("summaryArgument"@).len() == 15);
    }
    assert(("iconColor"@) != ("channelId"@)) by {
        if ("iconColor"@) == ("channelId"@) {
            assert(("iconColor"@)[0] == ("channelId"@)[0]);
        }
    }
    assert(("actionTypeId"@) != ("group"@)) by {
        assert(("actionTypeId"@).len() == 12);
        assert(("group"@).len() == 5);
    }
    assert(("actionTypeId"@) != ("groupSummary"@)) by {
        if ("actionTypeId"@) == ("groupSummary"@) {
            assert(("actionTypeId"@)[0] == ("groupSummary"@)[0]);
        }
    }
    assert(("actionTypeId"@) != ("sound"@)) by {
        assert(("actionTypeId"@).len() == 12);
        assert(("sound"@).len() == 5);
    }
    assert(("actionTypeId"@) != ("threadIdentifier"@)) by {
        assert(("actionTypeId"@).len() == 12);
        assert(("threadIdentifier"@).len() == 16);
    }
    assert(("actionTypeId"@) != ("summaryArgument"@)) by {
        assert(("actionTypeId"@).len() == 12);
        assert(("summaryArgument"@).len() == 15);
    }
    assert(("actionTypeId"@) != ("channelId"@)) by {
        assert(("actionTypeId"@).len() == 12);
        assert(("channelId"@).len() == 9);
    }
    assert(("group"@) != ("groupSummary"@)) by {
        assert(("group"@).len() == 5);
        assert(("groupSummary"@).len() == 12);
    }
    assert(("group"@) != ("sound"@)) by {
        if ("group"@) == ("sound"@) {
            assert(("group"@)[0] == ("sound"@)[0]);
        }
    }
    assert(("group"@) != ("threadIdentifier"@)) by {
        assert(("group"@).len() == 5);
        assert(("threadIdentifier"@).len() == 16);
    }
    assert(("group"@) != ("summaryArgument"@)) by {
        assert(("group"@).len() == 5);
        assert(("summaryArgument"@).len() == 15);
    }
    assert(("group"@) != ("channelId"@)) by {
        assert(("group"@).len() == 5);
        assert(("channelId"@).len() == 9);
    }
    assert(("groupSummary"@) != ("sound"@)) by {
        assert(("groupSummary"@).len() == 12);
        assert(("sound"@).len() == 5);
    }
    assert(("groupSummary"@) != ("threadIdentifier"@)) by {
        assert(("groupSummary"@).len() == 12);
        assert(("threadIdentifier"@).len() == 16);
    }
    assert(("groupSummary"@) != ("summaryArgument"@)) by {
        assert(("groupSummary"@).len() == 12);
        assert(("summaryArgument"@).len() == 15);
    }
    assert(("groupSummary"@) != ("channelId"@)) by {
        assert(("groupSummary"@).len() == 12);
        assert(("channelId"@).len() == 9);
    }
    assert(("sound"@) != ("threadIdentifier"@)) by {
        assert(("sound"@).len() == 5);
        assert(("threadIdentifier"@).len() == 16);
    }
    assert(("sound"@) != ("summaryArgument"@)) by {
        assert(("sound"@).len() == 5);
        assert(("summaryArgument"@).len() == 15);
    }
    assert(("sound"@) != ("channelId"@)) by {
        assert(("sound"@).len() == 5);
        assert(("channelId"@).len() == 9);
    }
    assert(("threadIdentifier"@) != ("summaryArgument"@)) by {
        assert(("threadIdentifier"@).len() == 16);
        assert(("summaryArgument"@).len() == 15);
    }
    assert(("threadIdentifier"@) != ("channelId"@)) by {
        assert(("threadIdentifier"@).len() == 16);
        assert(("channelId"@).len() == 9);
    }
    assert(("summaryArgument"@) != ("channelId"@)) by {
        assert(("summaryArgument"@).len() == 15);
        assert(("channelId"@).len() == 9);
    }
}

/// Encoding the three leading required fields satisfies their ladder,
/// whatever follows them.
#[verifier::rlimit(100)]
#[verifier::spinoff_prover]
proof fn lemma_head_a_encode(h: SchemaHead, rest: Seq<(Seq<char>, ValueView)>)
    ensures
        schema_head_a(head_a_fields(h) + rest) == Some(head_a_fields(h).len() as int),
{
    reveal(schema_head_a);
    lemma_encode_of_accepted::<Schedule>(h.schedule);
}

/// Encoding the long texts, identifier, flags and inbox list lands their
/// probes exactly, provided what follows cannot be mistaken for the inbox
/// list.
#[verifier::rlimit(100)]
#[verifier::spinoff_prover]
proof fn lemma_head_b_encode(
    prefix: Seq<(Seq<char>, ValueView)>,
    h: SchemaHead,
    rest: Seq<(Seq<char>, ValueView)>,
)
    requires
        rest.len() > 0 ==> rest[0].0 != ("inboxList"@),
    ensures
        schema_head_b(prefix + head_b_fields(h) + rest, prefix.len() as int) == Some(
            (prefix.len() + head_b_fields(h).len()) as int,
        ),
{
    reveal(schema_head_b);
    lemma_schema_names();
    if h.inbox_list is Some {
        lemma_strs_encode_accepted((h.inbox_list->0)@);
    }
}

/// Encoding the first half lands its probes exactly: the combined ladder
/// stops at the end of the half, whatever well-named fields follow.
proof fn lemma_schema_head_encode(h: SchemaHead, rest: Seq<(Seq<char>, ValueView)>)
    requires
        rest.len() > 0 ==> rest[0].0 != ("inboxList"@),
    ensures
        schema_head(head_fields(h) + rest) == Some(head_fields(h).len() as int),
{
    let fs = head_fields(h) + rest;
    lemma_head_a_encode(h, head_b_fields(h) + rest);
    assert(head_a_fields(h) + (head_b_fields(h) + rest) =~= fs);
    lemma_head_b_encode(head_a_fields(h), h, rest);
    assert(head_a_fields(h) + head_b_fields(h) + rest =~= fs);
}

/// Encoding the first five trailing text fields satisfies their ladder,
/// provided what follows cannot be mistaken for any of them.
#[verifier::rlimit(100)]
#[verifier::spinoff_prover]
proof fn lemma_tail_a_encode(
    prefix: Seq<(Seq<char>, ValueView)>,
    t: SchemaTail,
    rest: Seq<(Seq<char>, ValueView)>,
)
    requires
        rest.len() > 0 ==> rest[0].0 != ("smallIcon"@) && rest[0].0 != ("largeIcon"@)
            && rest[0].0 != ("iconColor"@) && rest[0].0 != ("actionTypeId"@)
            && rest[0].0 != ("group"@),
    ensures
        schema_tail_a(prefix + tail_a_fields(t) + rest, prefix.len() as int) == Some(
            (prefix.len() + tail_a_fields(t).len()) as int,
        ),
{
    reveal(schema_tail_a);
    lemma_schema_names();
}

/// Encoding the last five trailing text fields satisfies their ladder and
/// reaches the end of the object.
#[verifier::rlimit(100)]
#[verifier::spinoff_prover]
proof fn lemma_tail_b_encode(prefix: Seq<(Seq<char>, ValueView)>, t: SchemaTail)
    ensures
        schema_tail_b(prefix + tail_b_fields(t), prefix.len() as int),
{
    reveal(schema_tail_b);
    lemma_schema_names();
}

/// Encoding the second half satisfies the trailing ladder from wherever the
/// first half ended.
proof fn lemma_schema_tail_encode(prefix: Seq<(Seq<char>, ValueView)>, t: SchemaTail)
    ensures
        schema_tail(prefix + tail_fields(t), prefix.len() as int),
{
    lemma_schema_names();
    let fs = prefix + tail_fields(t);
    if tail_b_fields(t).len() > 0 {
        assert(tail_b_fields(t)[0].0 != ("smallIcon"@) && tail_b_fields(t)[0].0 != ("largeIcon"@)
            && tail_b_fields(t)[0].0 != ("iconColor"@)
            && tail_b_fields(t)[0].0 != ("actionTypeId"@)
            && tail_b_fields(t)[0].0 != ("group"@));
    }
    lemma_tail_a_encode(prefix, t, tail_b_fields(t));
    assert(prefix + tail_a_fields(t) + tail_b_fields(t) =~= fs);
    lemma_tail_b_encode(prefix + tail_a_fields(t), t);
    assert((prefix + tail_a_fields(t)) + tail_b_fields(t) =~= fs);
}

/// Read the first half of a notification off an object reader standing at
/// its beginning.
#[verifier::rlimit(100)]
#[verifier::spinoff_prover]
fn read_schema_head<'a>(rd: &mut ObjReader<'a>) -> (r: Option<SchemaHead>)
    requires
        old(rd).wf(),
        old(rd).cursor() == 0,
    ensures
        final(rd).wf(),
        final(rd).fs() == old(rd).fs(),
        match r {
            Some(h) => schema_head(old(rd).fs()) == Some(final(rd).cursor())
                && final(rd).consumed() == old(rd).consumed() + head_fields(h),
            None => schema_head(old(rd).fs()) is None,
        },
{
    proof {
        reveal(schema_head_a);
        reveal(schema_head_b);
    }
    let f_title: String = match rd.req("title") {
        Some(vv) => match vv {
            Value::Str(s) => s.clone(),
            _ => {
                return None;
            },
        },
        None => {
            return None;
        },
    };
    let f_body: String = match rd.req("body") {
        Some(vv) => match vv {
            Value::Str(s) => s.clone(),
            _ => {
                return None;
            },
        },
        None => {
            return None;
        },
    };
    let f_schedule: Schedule = match rd.req("schedule") {
        Some(vv) => match Schedule::from_bridge(vv) {
            Some(y) => {
                proof {
                    lemma_accepts_of::<Schedule>(vv@);
                    lemma_encode_of::<Schedule>(y);
                }
                y
            },
            None => {
                proof {
                    lemma_accepts_of::<Schedule>(vv@);
                }
                return None;
            },
        },
        None => {
            return None;
        },
    };
    let ghost mida = rd.consumed();
    let f_large_body: Option<String> = match rd.opt("largeBody") {
        Some(vv) => match vv {
            Value::Str(s) => Some(s.clone()),
            _ => {
                return None;
            },
        },
        None => None,
    };
    let f_summary_text: Option<String> = match rd.opt("summaryText") {
        Some(vv) => match vv {
            Value::Str(s) => Some(s.clone()),
            _ => {
                return None;
            },
        },
        None => None,
    };
    let f_id: i32 = match rd.req("id") {
        Some(vv) => match vv {
            Value::Int(n) => {
                if *n < i32::MIN as i64 || *n > i32::MAX as i64 {
                    return None;
                }
                *n as i32
            },
            _ => {
                return None;
            },
        },
        None => {
            return None;
        },
    };
    let f_ongoing: bool = match rd.req("ongoing") {
        Some(vv) => match vv {
            Value::Bool(bb) => *bb,
            _ => {
                return None;
            },
        },
        None => {
            return None;
        },
    };
    let f_auto_cancel: bool = match rd.req("autoCancel") {
        Some(vv) => match vv {
            Value::Bool(bb) => *bb,
            _ => {
                return None;
            },
        },
        None => {
            return None;
        },
    };
    let f_inbox_list: Option<Vec<String>> = match rd.opt("inboxList") {
        Some(vv) => match decode_strs(vv) {
            Some(ys) => Some(ys),
            None => {
                return None;
            },
        },
        None => None,
    };
    let h = SchemaHead {
        title: f_title,
        body: f_body,
        schedule: f_schedule,
        large_body: f_large_body,
        summary_text: f_summary_text,
        id: f_id,
        ongoing: f_ongoing,
        auto_cancel: f_auto_cancel,
        inbox_list: f_inbox_list,
    };
    proof {
        assert(mida =~= old(rd).consumed() + head_a_fields(h));
        assert(rd.consumed() =~= mida + head_b_fields(h));
        assert(rd.consumed() =~= old(rd).consumed() + head_fields(h));
    }
    Some(h)
}

/// A ghost-only carrier for the first five trailing fields.
pub open spec fn tail_a_part(
    small_icon: Option<String>,
    large_icon: Option<String>,
    icon_color: Option<String>,
    action_type_id: Option<String>,
    group: Option<String>,
) -> SchemaTail {
    SchemaTail {
        small_icon,
        large_icon,
        icon_color,
        action_type_id,
        group,
        group_summary: None,
        sound: None,
        thread_identifier: None,
        summary_argument: None,
        channel_id: None,
    }
}

/// A ghost-only carrier for the last five trailing fields.
pub open spec fn tail_b_part(
    group_summary: Option<String>,
    sound: Option<String>,
    thread_identifier: Option<String>,
    summary_argument: Option<String>,
    channel_id: Option<String>,
) -> SchemaTail {
    SchemaTail {
        small_icon: None,
        large_icon: None,
        icon_color: None,
        action_type_id: None,
        group: None,
        group_summary,
        sound,
        thread_identifier,
        summary_argument,
        channel_id,
    }
}

/// Read the first five trailing text fields.
#[verifier::rlimit(100)]
#[verifier::spinoff_prover]
fn read_tail_a<'a>(rd: &mut ObjReader<'a>) -> (r: Option<
    (Option<String>, Option<String>, Option<String>, Option<String>, Option<String>),
>)
    requires
        old(rd).wf(),
    ensures
        final(rd).wf(),
        final(rd).fs() == old(rd).fs(),
        match r {
            Some(p) => schema_tail_a(old(rd).fs(), old(rd).cursor()) == Some(final(rd).cursor())
                && final(rd).consumed() == old(rd).consumed() + tail_a_fields(
                    tail_a_part(p.0, p.1, p.2, p.3, p.4),
                ),
            None => schema_tail_a(old(rd).fs(), old(rd).cursor()) is None,
        },
{
    proof {
        reveal(schema_tail_a);
    }
    let f_small_icon: Option<String> = match rd.opt("smallIcon") {
        Some(vv) => match vv {
            Value::Str(s) => Some(s.clone()),
            _ => {
                return None;
            },
        },
        None => None,
    };
    let f_large_icon: Option<String> = match rd.opt("largeIcon") {
        Some(vv) => match vv {
            Value::Str(s) => Some(s.clone()),
            _ => {
                return None;
            },
        },
        None => None,
    };
    let f_icon_color: Option<String> = match rd.opt("iconColor") {
        Some(vv) => match vv {
            Value::Str(s) => Some(s.clone()),
            _ => {
                return None;
            },
        },
        None => None,
    };
    let f_action_type_id: Option<String> = match rd.opt("actionTypeId") {
        Some(vv) => match vv {
            Value::Str(s) => Some(s.clone()),
            _ => {
                return None;
            },
        },
        None => None,
    };
    let f_group: Option<String> = match rd.opt("group") {
        Some(vv) => match vv {
            Value::Str(s) => Some(s.clone()),
            _ => {
                return None;
            },
        },
        None => None,
    };
    let p = (f_small_icon, f_large_icon, f_icon_color, f_action_type_id, f_group);
    proof {
        assert(rd.consumed() =~= old(rd).consumed() + tail_a_fields(
            tail_a_part(p.0, p.1, p.2, p.3, p.4),
        ));
    }
    Some(p)
}

/// Read the last five trailing text fields, which must end the object.
#[verifier::rlimit(100)]
#[verifier::spinoff_prover]
fn read_tail_b<'a>(rd: &mut ObjReader<'a>) -> (r: Option<
    (Option<String>, Option<String>, Option<String>, Option<String>, Option<String>),
>)
    requires
        old(rd).wf(),
    ensures
        final(rd).wf(),
        final(rd).fs() == old(rd).fs(),
        match r {
            Some(p) => schema_tail_b(old(rd).fs(), old(rd).cursor())
                && final(rd).consumed() == old(rd).consumed() + tail_b_fields(
                    tail_b_part(p.0, p.1, p.2, p.3, p.4),
                )
                && final(rd).fs() == final(rd).consumed(),
            None => !schema_tail_b(old(rd).fs(), old(rd).cursor()),
        },
{
    proof {
        reveal(schema_tail_b);
    }
    let f_group_summary: Option<String> = match rd.opt("groupSummary") {
        Some(vv) => match vv {
            Value::Str(s) => Some(s.clone()),
            _ => {
                return None;
            },
        },
        None => None,
    };
    let f_sound: Option<String> = match rd.opt("sound") {
        Some(vv) => match vv {
            Value::Str(s) => Some(s.clone()),
            _ => {
                return None;
            },
        },
        None => None,
    };
    let f_thread_identifier: Option<String> = match rd.opt("threadIdentifier") {
        Some(vv) => match vv {
            Value::Str(s) => Some(s.clone()),
            _ => {
                return None;
            },
        },
        None => None,
    };
    let f_summary_argument: Option<String> = match rd.opt("summaryArgument") {
        Some(vv) => match vv {
            Value::Str(s) => Some(s.clone()),
            _ => {
                return None;
            },
        },
        None => None,
    };
    let f_channel_id: Option<String> = match rd.opt("channelId") {
        Some(vv) => match vv {
            Value::Str(s) => Some(s.clone()),
            _ => {
                return None;
            },
        },
        None => None,
    };
    if !rd.done() {
        return None;
    }
    let p = (f_group_summary, f_sound, f_thread_identifier, f_summary_argument, f_channel_id);
    proof {
        assert(rd.consumed() =~= old(rd).consumed() + tail_b_fields(
            tail_b_part(p.0, p.1, p.2, p.3, p.4),
        ));
    }
    Some(p)
}

/// Read the second half of a notification off an object reader standing
/// where the first half ended.
fn read_schema_tail<'a>(rd: &mut ObjReader<'a>) -> (r: Option<SchemaTail>)
    requires
        old(rd).wf(),
    ensures
        final(rd).wf(),
        final(rd).fs() == old(rd).fs(),
        match r {
            Some(t) => schema_tail(old(rd).fs(), old(rd).cursor())
                && final(rd).consumed() == old(rd).consumed() + tail_fields(t)
                && final(rd).fs() == final(rd).consumed(),
            None => !schema_tail(old(rd).fs(), old(rd).cursor()),
        },
{
    let a = match read_tail_a(rd) {
        Some(a) => a,
        None => {
            return None;
        },
    };
    let b = match read_tail_b(rd) {
        Some(b) => b,
        None => {
            return None;
        },
    };
    let ghost ga = a;
    let ghost gb = b;
    let t = SchemaTail {
        small_icon: a.0,
        large_icon: a.1,
        icon_color: a.2,
        action_type_id: a.3,
        group: a.4,
        group_summary: b.0,
        sound: b.1,
        thread_identifier: b.2,
        summary_argument: b.3,
        channel_id: b.4,
    };
    proof {
        assert(tail_a_fields(t) == tail_a_fields(tail_a_part(ga.0, ga.1, ga.2, ga.3, ga.4)));
        assert(tail_b_fields(t) == tail_b_fields(tail_b_part(gb.0, gb.1, gb.2, gb.3, gb.4)));
        assert((old(rd).consumed() + tail_a_fields(t)) + tail_b_fields(t)
            =~= old(rd).consumed() + tail_fields(t));
    }
    Some(t)
}

/// Append the first five trailing text fields to an object under
/// construction.
#[verifier::rlimit(100)]
#[verifier::spinoff_prover]
fn push_tail_a(
    b: &mut ObjBuilder,
    small_icon: &Option<String>,
    large_icon: &Option<String>,
    icon_color: &Option<String>,
    action_type_id: &Option<String>,
    group: &Option<String>,
)
    ensures
        final(b)@ == old(b)@ + tail_a_fields(
            tail_a_part(*small_icon, *large_icon, *icon_color, *action_type_id, *group),
        ),
{
    b.put_opt_str("smallIcon", small_icon);
    b.put_opt_str("largeIcon", large_icon);
    b.put_opt_str("iconColor", icon_color);
    b.put_opt_str("actionTypeId", action_type_id);
    b.put_opt_str("group", group);
    proof {
        assert(b@ =~= old(b)@ + tail_a_fields(
            tail_a_part(*small_icon, *large_icon, *icon_color, *action_type_id, *group),
        ));
    }
}

/// Append the last five trailing text fields to an object under
/// construction.
#[verifier::rlimit(100)]
#[verifier::spinoff_prover]
fn push_tail_b(
    b: &mut ObjBuilder,
    group_summary: &Option<String>,
    sound: &Option<String>,
    thread_identifier: &Option<String>,
    summary_argument: &Option<String>,
    channel_id: &Option<String>,
)
    ensures
        final(b)@ == old(b)@ + tail_b_fields(
            tail_b_part(*group_summary, *sound, *thread_identifier, *summary_argument, *channel_id),
        ),
{
    b.put_opt_str("groupSummary", group_summary);
    b.put_opt_str("sound", sound);
    b.put_opt_str("threadIdentifier", thread_identifier);
    b.put_opt_str("summaryArgument", summary_argument);
    b.put_opt_str("channelId", channel_id);
    proof {
        assert(b@ =~= old(b)@ + tail_b_fields(
            tail_b_part(*group_summary, *sound, *thread_identifier, *summary_argument, *channel_id),
        ));
    }
}

impl BridgeDto for LocalNotificationSchema {
    open spec fn spec_encode(self) -> ValueView {
        ValueView::Obj(head_fields(self.head_part()) + tail_fields(self.tail_part()))
    }

    open spec fn spec_accepts(m: ValueView) -> bool {
        &&& m matches ValueView::Obj(fs)
        &&& match schema_head(fs) {
            Some(i) => schema_tail(fs, i),
            None => false,
        }
    }

    open spec fn spec_typename() -> Seq<char> {
        "LocalNotificationSchema"@
    }

    proof fn lemma_encode_accepted(&self) {
        let h = self.head_part();
        let t = self.tail_part();
        lemma_schema_names();
        if tail_fields(t).len() > 0 {
            assert(tail_fields(t)[0].0 != ("inboxList"@));
        }
        lemma_schema_head_encode(h, tail_fields(t));
        lemma_schema_tail_encode(head_fields(h), t);
    }

    fn typename() -> (r: &'static str) {
        "LocalNotificationSchema"
    }

    #[verifier::rlimit(100)]
    #[verifier::spinoff_prover]
    fn to_bridge(&self) -> (r: Value) {
        let mut b = ObjBuilder::new();
        b.put("title", Value::Str(self.title.clone()));
        b.put("body", Value::Str(self.body.clone()));
        proof {
            lemma_encode_of::<Schedule>(self.schedule);
        }
        b.put("schedule", self.schedule.to_bridge());
        let ghost bha = b@;
        b.put_opt_str("largeBody", &self.large_body);
        b.put_opt_str("summaryText", &self.summary_text);
        b.put("id", Value::Int(self.id as i64));
        b.put("ongoing", Value::Bool(self.ongoing));
        b.put("autoCancel", Value::Bool(self.auto_cancel));
        match &self.inbox_list {
            Some(x) => {
                b.put("inboxList", encode_strs(x));
            },
            None => {},
        }
        let ghost bh = b@;
        push_tail_a(
            &mut b,
            &self.small_icon,
            &self.large_icon,
            &self.icon_color,
            &self.action_type_id,
            &self.group,
        );
        push_tail_b(
            &mut b,
            &self.group_summary,
            &self.sound,
            &self.thread_identifier,
            &self.summary_argument,
            &self.channel_id,
        );
        proof {
            let h = self.head_part();
            let t = self.tail_part();
            assert(bha =~= head_a_fields(h));
            assert(bh =~= bha + head_b_fields(h));
            assert(tail_a_fields(t) == tail_a_fields(
                tail_a_part(
                    self.small_icon,
                    self.large_icon,
                    self.icon_color,
                    self.action_type_id,
                    self.group,
                ),
            ));
            assert(tail_b_fields(t) == tail_b_fields(
                tail_b_part(
                    self.group_summary,
                    self.sound,
                    self.thread_identifier,
                    self.summary_argument,
                    self.channel_id,
                ),
            ));
            assert(((head_a_fields(h) + head_b_fields(h)) + tail_a_fields(t)) + tail_b_fields(t)
                =~= head_fields(h) + tail_fields(t));
            assert(self.spec_encode() == ValueView::Obj(b@));
        }
        b.finish()
    }

    fn from_bridge(v: &Value) -> (r: Option<Self>) {
        let mut rd = match ObjReader::start(v) {
            Some(rd) => rd,
            None => {
                return None;
            },
        };
        let h = match read_schema_head(&mut rd) {
            Some(h) => h,
            None => {
                return None;
            },
        };
        let t = match read_schema_tail(&mut rd) {
            Some(t) => t,
            None => {
                return None;
            },
        };
        let ghost gh = h;
        let ghost gt = t;
        let x = LocalNotificationSchema {
            title: h.title,
            body: h.body,
            schedule: h.schedule,
            large_body: h.large_body,
            summary_text: h.summary_text,
            id: h.id,
            ongoing: h.ongoing,
            auto_cancel: h.auto_cancel,
            inbox_list: h.inbox_list,
            small_icon: t.small_icon,
            large_icon: t.large_icon,
            icon_color: t.icon_color,
            action_type_id: t.action_type_id,
            group: t.group,
            group_summary: t.group_summary,
            sound: t.sound,
            thread_identifier: t.thread_identifier,
            summary_argument: t.summary_argument,
            channel_id: t.channel_id,
        };
        proof {
            assert(x.head_part() == gh);
            assert(x.tail_part() == gt);
            assert(rd.fs() =~= rd.consumed());
            assert(x.spec_encode() == v@);
            x.lemma_encode_accepted();
        }
        Some(x)
    }
}

impl BridgeDto for ScheduleOptions {
    open spec fn spec_encode(self) -> ValueView {
        let fs = Seq::<(Seq<char>, ValueView)>::empty();
        let fs = fs.push(("notifications"@, spec_encode_seq(self.notifications@)));
        ValueView::Obj(fs)
    }

    open spec fn spec_accepts(m: ValueView) -> bool {
        &&& m matches ValueView::Obj(fs)
        &&& {
            match req_field(fs, 0, "notifications"@) {
                Some((v0, i0)) => spec_accepts_seq::<LocalNotificationSchema>(v0) && {
                    i0 == fs.len()
                },
                None => false,
            }
        }
    }

    open spec fn spec_typename() -> Seq<char> {
        "ScheduleOptions"@
    }

    proof fn lemma_encode_accepted(&self) {
        lemma_seq_encode_accepted(self.notifications@);
    }

    fn typename() -> (r: &'static str) {
        "ScheduleOptions"
    }

    fn to_bridge(&self) -> (r: Value) {
        let mut b = ObjBuilder::new();
        b.put("notifications", encode_seq(&self.notifications));
        proof {
            assert(self.spec_encode() == ValueView::Obj(b@));
        }
        b.finish()
    }

    fn from_bridge(v: &Value) -> (r: Option<Self>) {
        let mut rd = match ObjReader::start(v) {
            Some(rd) => rd,
            None => {
                return None;
            },
        };
        let f_notifications: Vec<LocalNotificationSchema> = match rd.req("notifications") {
            Some(vv) => match decode_seq::<LocalNotificationSchema>(vv) {
                Some(ys) => ys,
                None => {
                    return None;
                },
            },
            None => {
                return None;
            },
        };
        if !rd.done() {
            return None;
        }
        let x = ScheduleOptions { notifications: f_notifications };
        proof {
            assert(x.spec_encode() == v@);
            x.lemma_encode_accepted();
        }
        Some(x)
    }
}
impl BridgeDto for ActionPerformed {
    open spec fn spec_encode(self) -> ValueView {
        let fs = Seq::<(Seq<char>, ValueView)>::empty();
        let fs = fs.push(("actionId"@, ValueView::Str(self.action_id@)));
        let fs = if self.input_value is Some { fs.push(("inputValue"@, ValueView::Str((self.input_value->0)@))) } else { fs };
        let fs = fs.push(("notification"@, encode_of::<LocalNotificationSchema>(self.notification)));
        ValueView::Obj(fs)
    }

    open spec fn spec_accepts(m: ValueView) -> bool {
        &&& m matches ValueView::Obj(fs)
        &&& {
            match req_field(fs, 0, "actionId"@) {
                Some((v0, i0)) => v0 is Str && {
                    let (o1, i1) = opt_field(fs, i0, "inputValue"@);
                    (match o1 { Some(w) => w is Str, None => true }) && {
                        match req_field(fs, i1, "notification"@) {
                            Some((v2, i2)) => accepts_of::<LocalNotificationSchema>(v2) && {
                                i2 == fs.len()
                            },
                            None => false,
                        }
                    }
                },
                None => false,
            }
        }
    }

    open spec fn spec_typename() -> Seq<char> {
        "ActionPerformed"@
    }

    proof fn lemma_encode_accepted(&self) {
        reveal_strlit("inputValue");
        reveal_strlit("notification");
        assert(("inputValue"@) != ("notification"@)) by {
            assert(("inputValue"@).len() == 10);
            assert(("notification"@).len() == 12);
        }
        lemma_encode_of_accepted::<LocalNotificationSchema>(self.notification);
    }

    fn typename() -> (r: &'static str) {
        "ActionPerformed"
    }

    fn to_bridge(&self) -> (r: Value) {
        let mut b = ObjBuilder::new();
        b.put("actionId", Value::Str(self.action_id.clone()));
        match &self.input_value {
            Some(x) => {
                b.put("inputValue", Value::Str(x.clone()));
            },
            None => {},
        }
        proof {
            lemma_encode_of::<LocalNotificationSchema>(self.notification);
        }
        b.put("notification", self.notification.to_bridge());
        proof {
            assert(self.spec_encode() == ValueView::Obj(b@));
        }
        b.finish()
    }

    fn from_bridge(v: &Value) -> (r: Option<Self>) {
        let mut rd = match ObjReader::start(v) {
            Some(rd) => rd,
            None => {
                return None;
            },
        };
        let f_action_id: String = match rd.req("actionId") {
            Some(vv) => match vv {
                Value::Str(s) => s.clone(),
                _ => {
                    return None;
                },
            },
            None => {
                return None;
            },
        };
        let f_input_value: Option<String> = match rd.opt("inputValue") {
            Some(vv) => match vv {
                Value::Str(s) => Some(s.clone()),
                _ => {
                    return None;
                },
            },
            None => None,
        };
        let f_notification: LocalNotificationSchema = match rd.req("notification") {
            Some(vv) => match LocalNotificationSchema::from_bridge(vv) {
                Some(y) => {
                    proof {
                        lemma_accepts_of::<LocalNotificationSchema>(vv@);
                        lemma_encode_of::<LocalNotificationSchema>(y);
                    }
                    y
                },
                None => {
                    proof {
                        lemma_accepts_of::<LocalNotificationSchema>(vv@);
                    }
                    return None;
                },
            },
            None => {
                return None;
            },
        };
        if !rd.done() {
            return None;
        }
        let x = ActionPerformed { action_id: f_action_id, input_value: f_input_value, notification: f_notification };
        proof {
            assert(x.spec_encode() == v@);
            x.lemma_encode_accepted();
        }
        Some(x)
    }
}
impl From<ScheduleOn> for Schedule {
    fn from(val: ScheduleOn) -> (r: Self) {
        Schedule::On { on: val, allow_while_idle: true }
    }
}

impl vstd::std_specs::convert::FromSpecImpl<ScheduleOn> for Schedule {
    open spec fn obeys_from_spec() -> bool {
        true
    }

    open spec fn from_spec(val: ScheduleOn) -> Self {
        Schedule::On { on: val, allow_while_idle: true }
    }
}

impl From<(ScheduleEvery, u32)> for Schedule {
    fn from(val: (ScheduleEvery, u32)) -> (r: Self) {
        Schedule::Every { every: val.0, count: val.1, allow_while_idle: true }
    }
}

impl vstd::std_specs::convert::FromSpecImpl<(ScheduleEvery, u32)> for Schedule {
    open spec fn obeys_from_spec() -> bool {
        true
    }

    open spec fn from_spec(val: (ScheduleEvery, u32)) -> Self {
        Schedule::Every { every: val.0, count: val.1, allow_while_idle: true }
    }
}

/// The stated contract lives on [`ScheduleOptions::of_single`]: a vector
/// cannot be built in specifications, so `from_spec` cannot describe this
/// conversion.
impl From<LocalNotificationSchema> for ScheduleOptions {
    fn from(val: LocalNotificationSchema) -> (r: Self) {
        ScheduleOptions::of_single(val)
    }
}

impl vstd::std_specs::convert::FromSpecImpl<LocalNotificationSchema> for ScheduleOptions {
    open spec fn obeys_from_spec() -> bool {
        false
    }

    open spec fn from_spec(val: LocalNotificationSchema) -> Self {
        arbitrary()
    }
}

impl ScheduleOptions {
    /// Schedule this one notification.
    pub fn of_single(notification: LocalNotificationSchema) -> (r: Self)
        ensures
            r.notifications@.len() == 1,
            r.notifications@[0] == notification,
    {
        let mut notifications: Vec<LocalNotificationSchema> = Vec::new();
        notifications.push(notification);
        ScheduleOptions { notifications }
    }
}

/// The notification received event stream.
pub struct NotificationReceived;

impl crate::listener::ListenerEvent for NotificationReceived {
    type Payload = LocalNotificationSchema;

    open spec fn spec_name() -> Seq<char> {
        "localNotificationReceived"@
    }

    fn event_name() -> (r: String) {
        "localNotificationReceived".to_owned()
    }
}

/// The notification action performed event stream.
pub struct NotificationActionPerformed;

impl crate::listener::ListenerEvent for NotificationActionPerformed {
    type Payload = ActionPerformed;

    open spec fn spec_name() -> Seq<char> {
        "localNotificationActionPerformed"@
    }

    fn event_name() -> (r: String) {
        "localNotificationActionPerformed".to_owned()
    }
}

} // verus!
