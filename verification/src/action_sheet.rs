//! The action-sheet plugin's request and response types.

use vstd::prelude::*;
#[allow(unused_imports)]
use crate::codec::{BridgeDto, ObjBuilder, ObjReader, accepts_of, decode_seq, decode_strs,
    encode_of, encode_seq, encode_strs, lemma_accepts_of, lemma_encode_of,
    lemma_encode_of_accepted, lemma_seq_encode_accepted, lemma_strs_encode_accepted, opt_field,
    req_field, spec_accepts_seq, spec_accepts_strs, spec_encode_seq, spec_encode_strs};
#[allow(unused_imports)]
use crate::value::{Value, ValueView, field_views, lemma_field_views, str_eq};

verus! {

/// The action-sheet plugin: let the user pick one of several options.
pub struct ActionSheet;

/// The title, optional message and options of an action sheet.
#[derive(Clone, Debug, PartialEq)]
pub struct ShowActionsOptions {
    pub title: String,
    pub message: Option<String>,
    pub options: Vec<ActionSheetButton>,
}
/// One option the user can choose.
#[derive(Clone, Debug, PartialEq)]
pub struct ActionSheetButton {
    pub title: String,
    pub icon: Option<String>,
    pub style: Option<ActionSheetButtonStyle>,
}
/// How an option is rendered.
#[derive(Clone, Copy, Debug, PartialEq, Eq, Structural)]
pub enum ActionSheetButtonStyle {
    Default,
    Destructive,
    Cancel,
}
/// The zero-based index of the clicked option.
#[derive(Clone, Debug, PartialEq)]
pub struct ShowActionsResult {
    pub index: u32,
}
impl BridgeDto for ActionSheetButtonStyle {
    open spec fn spec_encode(self) -> ValueView {
        match self {
            ActionSheetButtonStyle::Default => ValueView::Str("DEFAULT"@),
            ActionSheetButtonStyle::Destructive => ValueView::Str("DESTRUCTIVE"@),
            ActionSheetButtonStyle::Cancel => ValueView::Str("CANCEL"@),
        }
    }

    open spec fn spec_accepts(m: ValueView) -> bool {
        m matches ValueView::Str(s) && (s == "DEFAULT"@ || s == "DESTRUCTIVE"@ || s == "CANCEL"@)
    }

    open spec fn spec_typename() -> Seq<char> {
        "ActionSheetButtonStyle"@
    }

    proof fn lemma_encode_accepted(&self) {
    }

    fn typename() -> (r: &'static str) {
        "ActionSheetButtonStyle"
    }

    fn to_bridge(&self) -> (r: Value) {
        match self {
            ActionSheetButtonStyle::Default => Value::Str("DEFAULT".to_owned()),
            ActionSheetButtonStyle::Destructive => Value::Str("DESTRUCTIVE".to_owned()),
            ActionSheetButtonStyle::Cancel => Value::Str("CANCEL".to_owned()),
        }
    }

    fn from_bridge(v: &Value) -> (r: Option<Self>) {
        match v {
            Value::Str(s) => {
                if str_eq(s.as_str(), "DEFAULT") {
                    Some(ActionSheetButtonStyle::Default)
                } else if str_eq(s.as_str(), "DESTRUCTIVE") {
                    Some(ActionSheetButtonStyle::Destructive)
                } else if str_eq(s.as_str(), "CANCEL") {
                    Some(ActionSheetButtonStyle::Cancel)
                } else {
                    None
                }
            },
            _ => None,
        }
    }
}
impl BridgeDto for ActionSheetButton {
    open spec fn spec_encode(self) -> ValueView {
        let fs = Seq::<(Seq<char>, ValueView)>::empty();
        let fs = fs.push(("title"@, ValueView::Str(self.title@)));
        let fs = if self.icon is Some { fs.push(("icon"@, ValueView::Str((self.icon->0)@))) } else { fs };
        let fs = if self.style is Some { fs.push(("style"@, encode_of::<ActionSheetButtonStyle>((self.style->0)))) } else { fs };
        ValueView::Obj(fs)
    }

    open spec fn spec_accepts(m: ValueView) -> bool {
        &&& m matches ValueView::Obj(fs)
        &&& {
            match req_field(fs, 0, "title"@) {
                Some((v0, i0)) => v0 is Str && {
                    let (o1, i1) = opt_field(fs, i0, "icon"@);
                    (match o1 { Some(w) => w is Str, None => true }) && {
                        let (o2, i2) = opt_field(fs, i1, "style"@);
                        (match o2 { Some(w) => accepts_of::<ActionSheetButtonStyle>(w), None => true }) && {
                            i2 == fs.len()
                        }
                    }
                },
                None => false,
            }
        }
    }

    open spec fn spec_typename() -> Seq<char> {
        "ActionSheetButton"@
    }

    proof fn lemma_encode_accepted(&self) {
        reveal_strlit("icon");
        reveal_strlit("style");
        assert(("icon"@) != ("style"@)) by {
            assert(("icon"@).len() == 4);
            assert(("style"@).len() == 5);
        }
        if self.style is Some {
            lemma_encode_of_accepted::<ActionSheetButtonStyle>(self.style->0);
        }
    }

    fn typename() -> (r: &'static str) {
        "ActionSheetButton"
    }

    fn to_bridge(&self) -> (r: Value) {
        let mut b = ObjBuilder::new();
        b.put("title", Value::Str(self.title.clone()));
        match &self.icon {
            Some(x) => {
                b.put("icon", Value::Str(x.clone()));
            },
            None => {},
        }
        match &self.style {
            Some(x) => {
                proof {
                    lemma_encode_of::<ActionSheetButtonStyle>(*x);
                }
                b.put("style", x.to_bridge());
            },
            None => {},
        }
        proof {
            assert(self.spec_encode() == ValueView::Obj(b@));
        }
        b.finish()
    }

    fn from_bridge(v: &Value) -> (r: Option<Self>) {
        let mut rd = match ObjReader::start(v) {
            Some(rd) => rd,
            None => {
                return None;
            },
        };
        let f_title: String = match rd.req("title") {
            Some(vv) => match vv {
                Value::Str(s) => s.clone(),
                _ => {
                    return None;
                },
            },
            None => {
                return None;
            },
        };
        let f_icon: Option<String> = match rd.opt("icon") {
            Some(vv) => match vv {
                Value::Str(s) => Some(s.clone()),
                _ => {
                    return None;
                },
            },
            None => None,
        };
        let f_style: Option<ActionSheetButtonStyle> = match rd.opt("style") {
            Some(vv) => match ActionSheetButtonStyle::from_bridge(vv) {
                Some(y) => {
                    proof {
                        lemma_accepts_of::<ActionSheetButtonStyle>(vv@);
                        lemma_encode_of::<ActionSheetButtonStyle>(y);
                    }
                    Some(y)
                },
                None => {
                    proof {
                        lemma_accepts_of::<ActionSheetButtonStyle>(vv@);
                    }
                    return None;
                },
            },
            None => None,
        };
        if !rd.done() {
            return None;
        }
        let x = ActionSheetButton { title: f_title, icon: f_icon, style: f_style };
        proof {
            assert(x.spec_encode() == v@);
            x.lemma_encode_accepted();
        }
        Some(x)
    }
}
impl BridgeDto for ShowActionsOptions {
    open spec fn spec_encode(self) -> ValueView {
        let fs = Seq::<(Seq<char>, ValueView)>::empty();
        let fs = fs.push(("title"@, ValueView::Str(self.title@)));
        let fs = if self.message is Some { fs.push(("message"@, ValueView::Str((self.message->0)@))) } else { fs };
        let fs = fs.push(("options"@, spec_encode_seq(self.options@)));
        ValueView::Obj(fs)
    }

    open spec fn spec_accepts(m: ValueView) -> bool {
        &&& m matches ValueView::Obj(fs)
        &&& {
            match req_field(fs, 0, "title"@) {
                Some((v0, i0)) => v0 is Str && {
                    let (o1, i1) = opt_field(fs, i0, "message"@);
                    (match o1 { Some(w) => w is Str, None => true }) && {
                        match req_field(fs, i1, "options"@) {
                            Some((v2, i2)) => spec_accepts_seq::<ActionSheetButton>(v2) && {
                                i2 == fs.len()
                            },
                            None => false,
                        }
                    }
                },
                None => false,
            }
        }
    }

    open spec fn spec_typename() -> Seq<char> {
        "ShowActionsOptions"@
    }

    proof fn lemma_encode_accepted(&self) {
        reveal_strlit("message");
        reveal_strlit("options");
        assert(("message"@) != ("options"@)) by {
            if ("message"@) == ("options"@) {
                assert(("message"@)[0] == ("options"@)[0]);
            }
        }
        lemma_seq_encode_accepted(self.options@);
    }

    fn typename() -> (r: &'static str) {
        "ShowActionsOptions"
    }

    fn to_bridge(&self) -> (r: Value) {
        let mut b = ObjBuilder::new();
        b.put("title", Value::Str(self.title.clone()));
        match &self.message {
            Some(x) => {
                b.put("message", Value::Str(x.clone()));
            },
            None => {},
        }
        b.put("options", encode_seq(&self.options));
        proof {
            assert(self.spec_encode() == ValueView::Obj(b@));
        }
        b.finish()
    }

    fn from_bridge(v: &Value) -> (r: Option<Self>) {
        let mut rd = match ObjReader::start(v) {
            Some(rd) => rd,
            None => {
                return None;
            },
        };
        let f_title: String = match rd.req("title") {
            Some(vv) => match vv {
                Value::Str(s) => s.clone(),
                _ => {
                    return None;
                },
            },
            None => {
                return None;
            },
        };
        let f_message: Option<String> = match rd.opt("message") {
            Some(vv) => match vv {
                Value::Str(s) => Some(s.clone()),
                _ => {
                    return None;
                },
            },
            None => None,
        };
        let f_options: Vec<ActionSheetButton> = match rd.req("options") {
            Some(vv) => match decode_seq::<ActionSheetButton>(vv) {
                Some(ys) => ys,
                None => {
                    return None;
                },
            },
            None => {
                return None;
            },
        };
        if !rd.done() {
            return None;
        }
        let x = ShowActionsOptions { title: f_title, message: f_message, options: f_options };
        proof {
            assert(x.spec_encode() == v@);
            x.lemma_encode_accepted();
        }
        Some(x)
    }
}
impl BridgeDto for ShowActionsResult {
    open spec fn spec_encode(self) -> ValueView {
        let fs = Seq::<(Seq<char>, ValueView)>::empty();
        let fs = fs.push(("index"@, ValueView::Int(self.index as int)));
        ValueView::Obj(fs)
    }

    open spec fn spec_accepts(m: ValueView) -> bool {
        &&& m matches ValueView::Obj(fs)
        &&& {
            match req_field(fs, 0, "index"@) {
                Some((v0, i0)) => (v0 matches ValueView::Int(n) && 0 <= n <= u32::MAX as int) && {
                    i0 == fs.len()
                },
                None => false,
            }
        }
    }

    open spec fn spec_typename() -> Seq<char> {
        "ShowActionsResult"@
    }

    proof fn lemma_encode_accepted(&self) {
    }

    fn typename() -> (r: &'static str) {
        "ShowActionsResult"
    }

    fn to_bridge(&self) -> (r: Value) {
        let mut b = ObjBuilder::new();
        b.put("index", Value::Int(self.index as i64));
        proof {
            assert(self.spec_encode() == ValueView::Obj(b@));
        }
        b.finish()
    }

    fn from_bridge(v: &Value) -> (r: Option<Self>) {
        let mut rd = match ObjReader::start(v) {
            Some(rd) => rd,
            None => {
                return None;
            },
        };
        let f_index: u32 = match rd.req("index") {
            Some(vv) => match vv {
                Value::Int(n) => {
                    if *n < 0 || *n > u32::MAX as i64 {
                        return None;
                    }
                    *n as u32
                },
                _ => {
                    return None;
                },
            },
            None => {
                return None;
            },
        };
        if !rd.done() {
            return None;
        }
        let x = ShowActionsResult { index: f_index };
        proof {
            assert(x.spec_encode() == v@);
            x.lemma_encode_accepted();
        }
        Some(x)
    }
}

} // verus!
