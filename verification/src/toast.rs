//! The toast plugin's request types.

use vstd::prelude::*;
#[allow(unused_imports)]
use crate::codec::{BridgeDto, ObjBuilder, ObjReader, accepts_of, decode_seq, decode_strs,
    encode_of, encode_seq, encode_strs, lemma_accepts_of, lemma_encode_of,
    lemma_encode_of_accepted, lemma_seq_encode_accepted, lemma_strs_encode_accepted, opt_field,
    req_field, spec_accepts_seq, spec_accepts_strs, spec_encode_seq, spec_encode_strs};
#[allow(unused_imports)]
use crate::value::{Value, ValueView, field_views, lemma_field_views, str_eq};

verus! {

/// The toast plugin: short transient text messages.
pub struct Toast;

/// Options for showing a toast.
#[derive(Clone, Debug, PartialEq)]
pub struct ShowOptions {
    pub text: String,
    pub duration: ToastDuration,
    pub position: ToastPosition,
}
/// How long the toast stays on screen.
#[derive(Clone, Copy, Debug, PartialEq, Eq, Structural)]
pub enum ToastDuration {
    Short,
    Long,
}
/// Where on the screen the toast appears.
#[derive(Clone, Copy, Debug, PartialEq, Eq, Structural)]
pub enum ToastPosition {
    Bottom,
    Center,
    Top,
}
impl BridgeDto for ShowOptions {
    open spec fn spec_encode(self) -> ValueView {
        let fs = Seq::<(Seq<char>, ValueView)>::empty();
        let fs = fs.push(("text"@, ValueView::Str(self.text@)));
        let fs = fs.push(("duration"@, encode_of::<ToastDuration>(self.duration)));
        let fs = fs.push(("position"@, encode_of::<ToastPosition>(self.position)));
        ValueView::Obj(fs)
    }

    open spec fn spec_accepts(m: ValueView) -> bool {
        &&& m matches ValueView::Obj(fs)
        &&& {
            match req_field(fs, 0, "text"@) {
                Some((v0, i0)) => v0 is Str && {
                    match req_field(fs, i0, "duration"@) {
                        Some((v1, i1)) => accepts_of::<ToastDuration>(v1) && {
                            match req_field(fs, i1, "position"@) {
                                Some((v2, i2)) => accepts_of::<ToastPosition>(v2) && {
                                    i2 == fs.len()
                                },
                                None => false,
                            }
                        },
                        None => false,
                    }
                },
                None => false,
            }
        }
    }

    open spec fn spec_typename() -> Seq<char> {
        "ShowOptions"@
    }

    proof fn lemma_encode_accepted(&self) {
        lemma_encode_of_accepted::<ToastDuration>(self.duration);
        lemma_encode_of_accepted::<ToastPosition>(self.position);
    }

    fn typename() -> (r: &'static str) {
        "ShowOptions"
    }

    fn to_bridge(&self) -> (r: Value) {
        let mut b = ObjBuilder::new();
        b.put("text", Value::Str(self.text.clone()));
        proof {
            lemma_encode_of::<ToastDuration>(self.duration);
        }
        b.put("duration", self.duration.to_bridge());
        proof {
            lemma_encode_of::<ToastPosition>(self.position);
        }
        b.put("position", self.position.to_bridge());
        proof {
            assert(self.spec_encode() == ValueView::Obj(b@));
        }
        b.finish()
    }

    fn from_bridge(v: &Value) -> (r: Option<Self>) {
        let mut rd = match ObjReader::start(v) {
            Some(rd) => rd,
            None => {
                return None;
            },
        };
        let f_text: String = match rd.req("text") {
            Some(vv) => match vv {
                Value::Str(s) => s.clone(),
                _ => {
                    return None;
                },
            },
            None => {
                return None;
            },
        };
        let f_duration: ToastDuration = match rd.req("duration") {
            Some(vv) => match ToastDuration::from_bridge(vv) {
                Some(y) => {
                    proof {
                        lemma_accepts_of::<ToastDuration>(vv@);
                        lemma_encode_of::<ToastDuration>(y);
                    }
                    y
                },
                None => {
                    proof {
                        lemma_accepts_of::<ToastDuration>(vv@);
                    }
                    return None;
                },
            },
            None => {
                return None;
            },
        };
        let f_position: ToastPosition = match rd.req("position") {
            Some(vv) => match ToastPosition::from_bridge(vv) {
                Some(y) => {
                    proof {
                        lemma_accepts_of::<ToastPosition>(vv@);
                        lemma_encode_of::<ToastPosition>(y);
                    }
                    y
                },
                None => {
                    proof {
                        lemma_accepts_of::<ToastPosition>(vv@);
                    }
                    return None;
                },
            },
            None => {
                return None;
            },
        };
        if !rd.done() {
            return None;
        }
        let x = ShowOptions { text: f_text, duration: f_duration, position: f_position };
        proof {
            assert(x.spec_encode() == v@);
            x.lemma_encode_accepted();
        }
        Some(x)
    }
}
impl BridgeDto for ToastDuration {
    open spec fn spec_encode(self) -> ValueView {
        match self {
            ToastDuration::Short => ValueView::Str("short"@),
            ToastDuration::Long => ValueView::Str("long"@),
        }
    }

    open spec fn spec_accepts(m: ValueView) -> bool {
        m matches ValueView::Str(s) && (s == "short"@ || s == "long"@)
    }

    open spec fn spec_typename() -> Seq<char> {
        "ToastDuration"@
    }

    proof fn lemma_encode_accepted(&self) {
    }

    fn typename() -> (r: &'static str) {
        "ToastDuration"
    }

    fn to_bridge(&self) -> (r: Value) {
        match self {
            ToastDuration::Short => Value::Str("short".to_owned()),
            ToastDuration::Long => Value::Str("long".to_owned()),
        }
    }

    fn from_bridge(v: &Value) -> (r: Option<Self>) {
        match v {
            Value::Str(s) => {
                if str_eq(s.as_str(), "short") {
                    Some(ToastDuration::Short)
                } else if str_eq(s.as_str(), "long") {
                    Some(ToastDuration::Long)
                } else {
                    None
                }
            },
            _ => None,
        }
    }
}
impl BridgeDto for ToastPosition {
    open spec fn spec_encode(self) -> ValueView {
        match self {
            ToastPosition::Bottom => ValueView::Str("bottom"@),
            ToastPosition::Center => ValueView::Str("center"@),
            ToastPosition::Top => ValueView::Str("top"@),
        }
    }

    open spec fn spec_accepts(m: ValueView) -> bool {
        m matches ValueView::Str(s) && (s == "bottom"@ || s == "center"@ || s == "top"@)
    }

    open spec fn spec_typename() -> Seq<char> {
        "ToastPosition"@
    }

    proof fn lemma_encode_accepted(&self) {
    }

    fn typename() -> (r: &'static str) {
        "ToastPosition"
    }

    fn to_bridge(&self) -> (r: Value) {
        match self {
            ToastPosition::Bottom => Value::Str("bottom".to_owned()),
            ToastPosition::Center => Value::Str("center".to_owned()),
            ToastPosition::Top => Value::Str("top".to_owned()),
        }
    }

    fn from_bridge(v: &Value) -> (r: Option<Self>) {
        match v {
            Value::Str(s) => {
                if str_eq(s.as_str(), "bottom") {
                    Some(ToastPosition::Bottom)
                } else if str_eq(s.as_str(), "center") {
                    Some(ToastPosition::Center)
                } else if str_eq(s.as_str(), "top") {
                    Some(ToastPosition::Top)
                } else {
                    None
                }
            },
            _ => None,
        }
    }
}
impl ShowOptions {
    /// A toast with the given text at the default place for the default
    /// time.
    pub fn of_text(text: &str) -> (r: Self)
        ensures
            r.text@ == text@,
            r.duration == ToastDuration::Short,
            r.position == ToastPosition::Bottom,
    {
        ShowOptions {
            text: text.to_owned(),
            duration: ToastDuration::Short,
            position: ToastPosition::Bottom,
        }
    }
}

} // verus!
