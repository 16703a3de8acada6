//! The dialog plugin's request and response types.

use vstd::prelude::*;
#[allow(unused_imports)]
use crate::codec::{BridgeDto, ObjBuilder, ObjReader, accepts_of, decode_seq, decode_strs,
    encode_of, encode_seq, encode_strs, lemma_accepts_of, lemma_encode_of,
    lemma_encode_of_accepted, lemma_seq_encode_accepted, lemma_strs_encode_accepted, opt_field,
    req_field, spec_accepts_seq, spec_accepts_strs, spec_encode_seq, spec_encode_strs};
#[allow(unused_imports)]
use crate::value::{Value, ValueView, field_views, lemma_field_views, str_eq};

verus! {

/// The dialog plugin: alert, prompt and confirmation dialogs.
pub struct Dialog;

/// Options for an alert dialog.
#[derive(Clone, Debug, PartialEq)]
pub struct AlertOptions {
    pub title: String,
    pub message: String,
    pub button_title: String,
}
/// What the user answered to a prompt dialog.
#[derive(Clone, Debug, PartialEq)]
pub struct PromptResult {
    pub value: String,
    pub cancelled: bool,
}
/// Options for a prompt dialog.
#[derive(Clone, Debug, PartialEq)]
pub struct PromptOptions {
    pub title: String,
    pub message: String,
    pub ok_button_title: String,
    pub cancel_button_title: String,
    pub input_placeholder: Option<String>,
    pub input_text: Option<String>,
}
/// Whether the positive button was clicked.
#[derive(Clone, Debug, PartialEq)]
pub struct ConfirmResult {
    pub value: bool,
}
/// Options for a confirmation dialog.
#[derive(Clone, Debug, PartialEq)]
pub struct ConfirmOptions {
    pub title: String,
    pub message: String,
    pub ok_button_title: String,
    pub cancel_button_title: String,
}
impl BridgeDto for AlertOptions {
    open spec fn spec_encode(self) -> ValueView {
        let fs = Seq::<(Seq<char>, ValueView)>::empty();
        let fs = fs.push(("title"@, ValueView::Str(self.title@)));
        let fs = fs.push(("message"@, ValueView::Str(self.message@)));
        let fs = fs.push(("buttonTitle"@, ValueView::Str(self.button_title@)));
        ValueView::Obj(fs)
    }

    open spec fn spec_accepts(m: ValueView) -> bool {
        &&& m matches ValueView::Obj(fs)
        &&& {
            match req_field(fs, 0, "title"@) {
                Some((v0, i0)) => v0 is Str && {
                    match req_field(fs, i0, "message"@) {
                        Some((v1, i1)) => v1 is Str && {
                            match req_field(fs, i1, "buttonTitle"@) {
                                Some((v2, i2)) => v2 is Str && {
                                    i2 == fs.len()
                                },
                                None => false,
                            }
                        },
                        None => false,
                    }
                },
                None => false,
            }
        }
    }

    open spec fn spec_typename() -> Seq<char> {
        "AlertOptions"@
    }

    proof fn lemma_encode_accepted(&self) {
    }

    fn typename() -> (r: &'static str) {
        "AlertOptions"
    }

    fn to_bridge(&self) -> (r: Value) {
        let mut b = ObjBuilder::new();
        b.put("title", Value::Str(self.title.clone()));
        b.put("message", Value::Str(self.message.clone()));
        b.put("buttonTitle", Value::Str(self.button_title.clone()));
        proof {
            assert(self.spec_encode() == ValueView::Obj(b@));
        }
        b.finish()
    }

    fn from_bridge(v: &Value) -> (r: Option<Self>) {
        let mut rd = match ObjReader::start(v) {
            Some(rd) => rd,
            None => {
                return None;
            },
        };
        let f_title: String = match rd.req("title") {
            Some(vv) => match vv {
                Value::Str(s) => s.clone(),
                _ => {
                    return None;
                },
            },
            None => {
                return None;
            },
        };
        let f_message: String = match rd.req("message") {
            Some(vv) => match vv {
                Value::Str(s) => s.clone(),
                _ => {
                    return None;
                },
            },
            None => {
                return None;
            },
        };
        let f_button_title: String = match rd.req("buttonTitle") {
            Some(vv) => match vv {
                Value::Str(s) => s.clone(),
                _ => {
                    return None;
                },
            },
            None => {
                return None;
            },
        };
        if !rd.done() {
            return None;
        }
        let x = AlertOptions { title: f_title, message: f_message, button_title: f_button_title };
        proof {
            assert(x.spec_encode() == v@);
            x.lemma_encode_accepted();
        }
        Some(x)
    }
}
impl BridgeDto for PromptResult {
    open spec fn spec_encode(self) -> ValueView {
        let fs = Seq::<(Seq<char>, ValueView)>::empty();
        let fs = fs.push(("value"@, ValueView::Str(self.value@)));
        let fs = fs.push(("cancelled"@, ValueView::Bool(self.cancelled)));
        ValueView::Obj(fs)
    }

    open spec fn spec_accepts(m: ValueView) -> bool {
        &&& m matches ValueView::Obj(fs)
        &&& {
            match req_field(fs, 0, "value"@) {
                Some((v0, i0)) => v0 is Str && {
                    match req_field(fs, i0, "cancelled"@) {
                        Some((v1, i1)) => v1 is Bool && {
                            i1 == fs.len()
                        },
                        None => false,
                    }
                },
                None => false,
            }
        }
    }

    open spec fn spec_typename() -> Seq<char> {
        "PromptResult"@
    }

    proof fn lemma_encode_accepted(&self) {
    }

    fn typename() -> (r: &'static str) {
        "PromptResult"
    }

    fn to_bridge(&self) -> (r: Value) {
        let mut b = ObjBuilder::new();
        b.put("value", Value::Str(self.value.clone()));
        b.put("cancelled", Value::Bool(self.cancelled));
        proof {
            assert(self.spec_encode() == ValueView::Obj(b@));
        }
        b.finish()
    }

    fn from_bridge(v: &Value) -> (r: Option<Self>) {
        let mut rd = match ObjReader::start(v) {
            Some(rd) => rd,
            None => {
                return None;
            },
        };
        let f_value: String = match rd.req("value") {
            Some(vv) => match vv {
                Value::Str(s) => s.clone(),
                _ => {
                    return None;
                },
            },
            None => {
                return None;
            },
        };
        let f_cancelled: bool = match rd.req("cancelled") {
            Some(vv) => match vv {
                Value::Bool(bb) => *bb,
                _ => {
                    return None;
                },
            },
            None => {
                return None;
            },
        };
        if !rd.done() {
            return None;
        }
        let x = PromptResult { value: f_value, cancelled: f_cancelled };
        proof {
            assert(x.spec_encode() == v@);
            x.lemma_encode_accepted();
        }
        Some(x)
    }
}
impl BridgeDto for PromptOptions {
    open spec fn spec_encode(self) -> ValueView {
        let fs = Seq::<(Seq<char>, ValueView)>::empty();
        let fs = fs.push(("title"@, ValueView::Str(self.title@)));
        let fs = fs.push(("message"@, ValueView::Str(self.message@)));
        let fs = fs.push(("okButtonTitle"@, ValueView::Str(self.ok_button_title@)));
        let fs = fs.push(("cancelButtonTitle"@, ValueView::Str(self.cancel_button_title@)));
        let fs = if self.input_placeholder is Some { fs.push(("inputPlaceholder"@, ValueView::Str((self.input_placeholder->0)@))) } else { fs };
        let fs = if self.input_text is Some { fs.push(("inputText"@, ValueView::Str((self.input_text->0)@))) } else { fs };
        ValueView::Obj(fs)
    }

    open spec fn spec_accepts(m: ValueView) -> bool {
        &&& m matches ValueView::Obj(fs)
        &&& {
            match req_field(fs, 0, "title"@) {
                Some((v0, i0)) => v0 is Str && {
                    match req_field(fs, i0, "message"@) {
                        Some((v1, i1)) => v1 is Str && {
                            match req_field(fs, i1, "okButtonTitle"@) {
                                Some((v2, i2)) => v2 is Str && {
                                    match req_field(fs, i2, "cancelButtonTitle"@) {
                                        Some((v3, i3)) => v3 is Str && {
                                            let (o4, i4) = opt_field(fs, i3, "inputPlaceholder"@);
                                            (match o4 { Some(w) => w is Str, None => true }) && {
                                                let (o5, i5) = opt_field(fs, i4, "inputText"@);
                                                (match o5 { Some(w) => w is Str, None => true }) && {
                                                    i5 == fs.len()
                                                }
                                            }
                                        },
                                        None => false,
                                    }
                                },
                                None => false,
                            }
                        },
                        None => false,
                    }
                },
                None => false,
            }
        }
    }

    open spec fn spec_typename() -> Seq<char> {
        "PromptOptions"@
    }

    proof fn lemma_encode_accepted(&self) {
    }

    fn typename() -> (r: &'static str) {
        "PromptOptions"
    }

    fn to_bridge(&self) -> (r: Value) {
        let mut b = ObjBuilder::new();
        b.put("title", Value::Str(self.title.clone()));
        b.put("message", Value::Str(self.message.clone()));
        b.put("okButtonTitle", Value::Str(self.ok_button_title.clone()));
        b.put("cancelButtonTitle", Value::Str(self.cancel_button_title.clone()));
        match &self.input_placeholder {
            Some(x) => {
                b.put("inputPlaceholder", Value::Str(x.clone()));
            },
            None => {},
        }
        match &self.input_text {
            Some(x) => {
                b.put("inputText", Value::Str(x.clone()));
            },
            None => {},
        }
        proof {
            assert(self.spec_encode() == ValueView::Obj(b@));
        }
        b.finish()
    }

    fn from_bridge(v: &Value) -> (r: Option<Self>) {
        let mut rd = match ObjReader::start(v) {
            Some(rd) => rd,
            None => {
                return None;
            },
        };
        let f_title: String = match rd.req("title") {
            Some(vv) => match vv {
                Value::Str(s) => s.clone(),
                _ => {
                    return None;
                },
            },
            None => {
                return None;
            },
        };
        let f_message: String = match rd.req("message") {
            Some(vv) => match vv {
                Value::Str(s) => s.clone(),
                _ => {
                    return None;
                },
            },
            None => {
                return None;
            },
        };
        let f_ok_button_title: String = match rd.req("okButtonTitle") {
            Some(vv) => match vv {
                Value::Str(s) => s.clone(),
                _ => {
                    return None;
                },
            },
            None => {
                return None;
            },
        };
        let f_cancel_button_title: String = match rd.req("cancelButtonTitle") {
            Some(vv) => match vv {
                Value::Str(s) => s.clone(),
                _ => {
                    return None;
                },
            },
            None => {
                return None;
            },
        };
        let f_input_placeholder: Option<String> = match rd.opt("inputPlaceholder") {
            Some(vv) => match vv {
                Value::Str(s) => Some(s.clone()),
                _ => {
                    return None;
                },
            },
            None => None,
        };
        let f_input_text: Option<String> = match rd.opt("inputText") {
            Some(vv) => match vv {
                Value::Str(s) => Some(s.clone()),
                _ => {
                    return None;
                },
            },
            None => None,
        };
        if !rd.done() {
            return None;
        }
        let x = PromptOptions { title: f_title, message: f_message, ok_button_title: f_ok_button_title, cancel_button_title: f_cancel_button_title, input_placeholder: f_input_placeholder, input_text: f_input_text };
        proof {
            assert(x.spec_encode() == v@);
            x.lemma_encode_accepted();
        }
        Some(x)
    }
}
impl BridgeDto for ConfirmResult {
    open spec fn spec_encode(self) -> ValueView {
        let fs = Seq::<(Seq<char>, ValueView)>::empty();
        let fs = fs.push(("value"@, ValueView::Bool(self.value)));
        ValueView::Obj(fs)
    }

    open spec fn spec_accepts(m: ValueView) -> bool {
        &&& m matches ValueView::Obj(fs)
        &&& {
            match req_field(fs, 0, "value"@) {
                Some((v0, i0)) => v0 is Bool && {
                    i0 == fs.len()
                },
                None => false,
            }
        }
    }

    open spec fn spec_typename() -> Seq<char> {
        "ConfirmResult"@
    }

    proof fn lemma_encode_accepted(&self) {
    }

    fn typename() -> (r: &'static str) {
        "ConfirmResult"
    }

    fn to_bridge(&self) -> (r: Value) {
        let mut b = ObjBuilder::new();
        b.put("value", Value::Bool(self.value));
        proof {
            assert(self.spec_encode() == ValueView::Obj(b@));
        }
        b.finish()
    }

    fn from_bridge(v: &Value) -> (r: Option<Self>) {
        let mut rd = match ObjReader::start(v) {
            Some(rd) => rd,
            None => {
                return None;
            },
        };
        let f_value: bool = match rd.req("value") {
            Some(vv) => match vv {
                Value::Bool(bb) => *bb,
                _ => {
                    return None;
                },
            },
            None => {
                return None;
            },
        };
        if !rd.done() {
            return None;
        }
        let x = ConfirmResult { value: f_value };
        proof {
            assert(x.spec_encode() == v@);
            x.lemma_encode_accepted();
        }
        Some(x)
    }
}
impl BridgeDto for ConfirmOptions {
    open spec fn spec_encode(self) -> ValueView {
        let fs = Seq::<(Seq<char>, ValueView)>::empty();
        let fs = fs.push(("title"@, ValueView::Str(self.title@)));
        let fs = fs.push(("message"@, ValueView::Str(self.message@)));
        let fs = fs.push(("okButtonTitle"@, ValueView::Str(self.ok_button_title@)));
        let fs = fs.push(("cancelButtonTitle"@, ValueView::Str(self.cancel_button_title@)));
        ValueView::Obj(fs)
    }

    open spec fn spec_accepts(m: ValueView) -> bool {
        &&& m matches ValueView::Obj(fs)
        &&& {
            match req_field(fs, 0, "title"@) {
                Some((v0, i0)) => v0 is Str && {
                    match req_field(fs, i0, "message"@) {
                        Some((v1, i1)) => v1 is Str && {
                            match req_field(fs, i1, "okButtonTitle"@) {
                                Some((v2, i2)) => v2 is Str && {
                                    match req_field(fs, i2, "cancelButtonTitle"@) {
                                        Some((v3, i3)) => v3 is Str && {
                                            i3 == fs.len()
                                        },
                                        None => false,
                                    }
                                },
                                None => false,
                            }
                        },
                        None => false,
                    }
                },
                None => false,
            }
        }
    }

    open spec fn spec_typename() -> Seq<char> {
        "ConfirmOptions"@
    }

    proof fn lemma_encode_accepted(&self) {
    }

    fn typename() -> (r: &'static str) {
        "ConfirmOptions"
    }

    fn to_bridge(&self) -> (r: Value) {
        let mut b = ObjBuilder::new();
        b.put("title", Value::Str(self.title.clone()));
        b.put("message", Value::Str(self.message.clone()));
        b.put("okButtonTitle", Value::Str(self.ok_button_title.clone()));
        b.put("cancelButtonTitle", Value::Str(self.cancel_button_title.clone()));
        proof {
            assert(self.spec_encode() == ValueView::Obj(b@));
        }
        b.finish()
    }

    fn from_bridge(v: &Value) -> (r: Option<Self>) {
        let mut rd = match ObjReader::start(v) {
            Some(rd) => rd,
            None => {
                return None;
            },
        };
        let f_title: String = match rd.req("title") {
            Some(vv) => match vv {
                Value::Str(s) => s.clone(),
                _ => {
                    return None;
                },
            },
            None => {
                return None;
            },
        };
        let f_message: String = match rd.req("message") {
            Some(vv) => match vv {
                Value::Str(s) => s.clone(),
                _ => {
                    return None;
                },
            },
            None => {
                return None;
            },
        };
        let f_ok_button_title: String = match rd.req("okButtonTitle") {
            Some(vv) => match vv {
                Value::Str(s) => s.clone(),
                _ => {
                    return None;
                },
            },
            None => {
                return None;
            },
        };
        let f_cancel_button_title: String = match rd.req("cancelButtonTitle") {
            Some(vv) => match vv {
                Value::Str(s) => s.clone(),
                _ => {
                    return None;
                },
            },
            None => {
                return None;
            },
        };
        if !rd.done() {
            return None;
        }
        let x = ConfirmOptions { title: f_title, message: f_message, ok_button_title: f_ok_button_title, cancel_button_title: f_cancel_button_title };
        proof {
            assert(x.spec_encode() == v@);
            x.lemma_encode_accepted();
        }
        Some(x)
    }
}

} // verus!
