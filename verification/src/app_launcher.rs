//! The app-launcher plugin's request and response types.

use vstd::prelude::*;
#[allow(unused_imports)]
use crate::codec::{BridgeDto, ObjBuilder, ObjReader, accepts_of, decode_seq, decode_strs,
    encode_of, encode_seq, encode_strs, lemma_accepts_of, lemma_encode_of,
    lemma_encode_of_accepted, lemma_seq_encode_accepted, lemma_strs_encode_accepted, opt_field,
    req_field, spec_accepts_seq, spec_accepts_strs, spec_encode_seq, spec_encode_strs};
#[allow(unused_imports)]
use crate::value::{Value, ValueView, field_views, lemma_field_views, str_eq};

verus! {

/// The app-launcher plugin: open other apps by URL.
pub struct AppLauncher;

/// The URL to test for openability.
#[derive(Clone, Debug, PartialEq)]
pub struct CanOpenUrlOptions {
    pub url: String,
}
/// The URL to open.
#[derive(Clone, Debug, PartialEq)]
pub struct OpenUrlOptions {
    pub url: String,
}
/// Whether an app can be opened with the URL.
#[derive(Clone, Debug, PartialEq)]
pub struct CanOpenURLResult {
    pub value: bool,
}
/// Whether the app was opened.
#[derive(Clone, Debug, PartialEq)]
pub struct OpenURLResult {
    pub completed: bool,
}
impl BridgeDto for CanOpenUrlOptions {
    open spec fn spec_encode(self) -> ValueView {
        let fs = Seq::<(Seq<char>, ValueView)>::empty();
        let fs = fs.push(("url"@, ValueView::Str(self.url@)));
        ValueView::Obj(fs)
    }

    open spec fn spec_accepts(m: ValueView) -> bool {
        &&& m matches ValueView::Obj(fs)
        &&& {
            match req_field(fs, 0, "url"@) {
                Some((v0, i0)) => v0 is Str && {
                    i0 == fs.len()
                },
                None => false,
            }
        }
    }

    open spec fn spec_typename() -> Seq<char> {
        "CanOpenUrlOptions"@
    }

    proof fn lemma_encode_accepted(&self) {
    }

    fn typename() -> (r: &'static str) {
        "CanOpenUrlOptions"
    }

    fn to_bridge(&self) -> (r: Value) {
        let mut b = ObjBuilder::new();
        b.put("url", Value::Str(self.url.clone()));
        proof {
            assert(self.spec_encode() == ValueView::Obj(b@));
        }
        b.finish()
    }

    fn from_bridge(v: &Value) -> (r: Option<Self>) {
        let mut rd = match ObjReader::start(v) {
            Some(rd) => rd,
            None => {
                return None;
            },
        };
        let f_url: String = match rd.req("url") {
            Some(vv) => match vv {
                Value::Str(s) => s.clone(),
                _ => {
                    return None;
                },
            },
            None => {
                return None;
            },
        };
        if !rd.done() {
            return None;
        }
        let x = CanOpenUrlOptions { url: f_url };
        proof {
            assert(x.spec_encode() == v@);
            x.lemma_encode_accepted();
        }
        Some(x)
    }
}
impl BridgeDto for OpenUrlOptions {
    open spec fn spec_encode(self) -> ValueView {
        let fs = Seq::<(Seq<char>, ValueView)>::empty();
        let fs = fs.push(("url"@, ValueView::Str(self.url@)));
        ValueView::Obj(fs)
    }

    open spec fn spec_accepts(m: ValueView) -> bool {
        &&& m matches ValueView::Obj(fs)
        &&& {
            match req_field(fs, 0, "url"@) {
                Some((v0, i0)) => v0 is Str && {
                    i0 == fs.len()
                },
                None => false,
            }
        }
    }

    open spec fn spec_typename() -> Seq<char> {
        "OpenUrlOptions"@
    }

    proof fn lemma_encode_accepted(&self) {
    }

    fn typename() -> (r: &'static str) {
        "OpenUrlOptions"
    }

    fn to_bridge(&self) -> (r: Value) {
        let mut b = ObjBuilder::new();
        b.put("url", Value::Str(self.url.clone()));
        proof {
            assert(self.spec_encode() == ValueView::Obj(b@));
        }
        b.finish()
    }

    fn from_bridge(v: &Value) -> (r: Option<Self>) {
        let mut rd = match ObjReader::start(v) {
            Some(rd) => rd,
            None => {
                return None;
            },
        };
        let f_url: String = match rd.req("url") {
            Some(vv) => match vv {
                Value::Str(s) => s.clone(),
                _ => {
                    return None;
                },
            },
            None => {
                return None;
            },
        };
        if !rd.done() {
            return None;
        }
        let x = OpenUrlOptions { url: f_url };
        proof {
            assert(x.spec_encode() == v@);
            x.lemma_encode_accepted();
        }
        Some(x)
    }
}
impl BridgeDto for CanOpenURLResult {
    open spec fn spec_encode(self) -> ValueView {
        let fs = Seq::<(Seq<char>, ValueView)>::empty();
        let fs = fs.push(("value"@, ValueView::Bool(self.value)));
        ValueView::Obj(fs)
    }

    open spec fn spec_accepts(m: ValueView) -> bool {
        &&& m matches ValueView::Obj(fs)
        &&& {
            match req_field(fs, 0, "value"@) {
                Some((v0, i0)) => v0 is Bool && {
                    i0 == fs.len()
                },
                None => false,
            }
        }
    }

    open spec fn spec_typename() -> Seq<char> {
        "CanOpenURLResult"@
    }

    proof fn lemma_encode_accepted(&self) {
    }

    fn typename() -> (r: &'static str) {
        "CanOpenURLResult"
    }

    fn to_bridge(&self) -> (r: Value) {
        let mut b = ObjBuilder::new();
        b.put("value", Value::Bool(self.value));
        proof {
            assert(self.spec_encode() == ValueView::Obj(b@));
        }
        b.finish()
    }

    fn from_bridge(v: &Value) -> (r: Option<Self>) {
        let mut rd = match ObjReader::start(v) {
            Some(rd) => rd,
            None => {
                return None;
            },
        };
        let f_value: bool = match rd.req("value") {
            Some(vv) => match vv {
                Value::Bool(bb) => *bb,
                _ => {
                    return None;
                },
            },
            None => {
                return None;
            },
        };
        if !rd.done() {
            return None;
        }
        let x = CanOpenURLResult { value: f_value };
        proof {
            assert(x.spec_encode() == v@);
            x.lemma_encode_accepted();
        }
        Some(x)
    }
}
impl BridgeDto for OpenURLResult {
    open spec fn spec_encode(self) -> ValueView {
        let fs = Seq::<(Seq<char>, ValueView)>::empty();
        let fs = fs.push(("completed"@, ValueView::Bool(self.completed)));
        ValueView::Obj(fs)
    }

    open spec fn spec_accepts(m: ValueView) -> bool {
        &&& m matches ValueView::Obj(fs)
        &&& {
            match req_field(fs, 0, "completed"@) {
                Some((v0, i0)) => v0 is Bool && {
                    i0 == fs.len()
                },
                None => false,
            }
        }
    }

    open spec fn spec_typename() -> Seq<char> {
        "OpenURLResult"@
    }

    proof fn lemma_encode_accepted(&self) {
    }

    fn typename() -> (r: &'static str) {
        "OpenURLResult"
    }

    fn to_bridge(&self) -> (r: Value) {
        let mut b = ObjBuilder::new();
        b.put("completed", Value::Bool(self.completed));
        proof {
            assert(self.spec_encode() == ValueView::Obj(b@));
        }
        b.finish()
    }

    fn from_bridge(v: &Value) -> (r: Option<Self>) {
        let mut rd = match ObjReader::start(v) {
            Some(rd) => rd,
            None => {
                return None;
            },
        };
        let f_completed: bool = match rd.req("completed") {
            Some(vv) => match vv {
                Value::Bool(bb) => *bb,
                _ => {
                    return None;
                },
            },
            None => {
                return None;
            },
        };
        if !rd.done() {
            return None;
        }
        let x = OpenURLResult { completed: f_completed };
        proof {
            assert(x.spec_encode() == v@);
            x.lemma_encode_accepted();
        }
        Some(x)
    }
}

} // verus!
