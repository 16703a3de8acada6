//! The share plugin's request and response types.

use vstd::prelude::*;
#[allow(unused_imports)]
use crate::codec::{BridgeDto, ObjBuilder, ObjReader, accepts_of, decode_seq, decode_strs,
    encode_of, encode_seq, encode_strs, lemma_accepts_of, lemma_encode_of,
    lemma_encode_of_accepted, lemma_seq_encode_accepted, lemma_strs_encode_accepted, opt_field,
    req_field, spec_accepts_seq, spec_accepts_strs, spec_encode_seq, spec_encode_strs};
#[allow(unused_imports)]
use crate::value::{Value, ValueView, field_views, lemma_field_views, str_eq};

verus! {

/// The share plugin: hand content to any sharing-enabled app.
pub struct Share;

/// Whether sharing is supported here.
#[derive(Clone, Debug, PartialEq)]
pub struct CanShareResult {
    pub value: bool,
}
/// The app that received the share action, if known.
#[derive(Clone, Debug, PartialEq)]
pub struct ShareResult {
    pub activity_type: Option<String>,
}
/// What to share.
#[derive(Clone, Debug, PartialEq)]
pub struct ShareOptions {
    pub title: Option<String>,
    pub text: Option<String>,
    pub url: Option<String>,
    pub dialog_title: Option<String>,
    pub files: Option<Vec<String>>,
}
impl BridgeDto for CanShareResult {
    open spec fn spec_encode(self) -> ValueView {
        let fs = Seq::<(Seq<char>, ValueView)>::empty();
        let fs = fs.push(("value"@, ValueView::Bool(self.value)));
        ValueView::Obj(fs)
    }

    open spec fn spec_accepts(m: ValueView) -> bool {
        &&& m matches ValueView::Obj(fs)
        &&& {
            match req_field(fs, 0, "value"@) {
                Some((v0, i0)) => v0 is Bool && {
                    i0 == fs.len()
                },
                None => false,
            }
        }
    }

    open spec fn spec_typename() -> Seq<char> {
        "CanShareResult"@
    }

    proof fn lemma_encode_accepted(&self) {
    }

    fn typename() -> (r: &'static str) {
        "CanShareResult"
    }

    fn to_bridge(&self) -> (r: Value) {
        let mut b = ObjBuilder::new();
        b.put("value", Value::Bool(self.value));
        proof {
            assert(self.spec_encode() == ValueView::Obj(b@));
        }
        b.finish()
    }

    fn from_bridge(v: &Value) -> (r: Option<Self>) {
        let mut rd = match ObjReader::start(v) {
            Some(rd) => rd,
            None => {
                return None;
            },
        };
        let f_value: bool = match rd.req("value") {
            Some(vv) => match vv {
                Value::Bool(bb) => *bb,
                _ => {
                    return None;
                },
            },
            None => {
                return None;
            },
        };
        if !rd.done() {
            return None;
        }
        let x = CanShareResult { value: f_value };
        proof {
            assert(x.spec_encode() == v@);
            x.lemma_encode_accepted();
        }
        Some(x)
    }
}
impl BridgeDto for ShareResult {
    open spec fn spec_encode(self) -> ValueView {
        let fs = Seq::<(Seq<char>, ValueView)>::empty();
        let fs = if self.activity_type is Some { fs.push(("activityType"@, ValueView::Str((self.activity_type->0)@))) } else { fs };
        ValueView::Obj(fs)
    }

    open spec fn spec_accepts(m: ValueView) -> bool {
        &&& m matches ValueView::Obj(fs)
        &&& {
            let (o0, i0) = opt_field(fs, 0, "activityType"@);
            (match o0 { Some(w) => w is Str, None => true }) && {
                i0 == fs.len()
            }
        }
    }

    open spec fn spec_typename() -> Seq<char> {
        "ShareResult"@
    }

    proof fn lemma_encode_accepted(&self) {
    }

    fn typename() -> (r: &'static str) {
        "ShareResult"
    }

    fn to_bridge(&self) -> (r: Value) {
        let mut b = ObjBuilder::new();
        match &self.activity_type {
            Some(x) => {
                b.put("activityType", Value::Str(x.clone()));
            },
            None => {},
        }
        proof {
            assert(self.spec_encode() == ValueView::Obj(b@));
        }
        b.finish()
    }

    fn from_bridge(v: &Value) -> (r: Option<Self>) {
        let mut rd = match ObjReader::start(v) {
            Some(rd) => rd,
            None => {
                return None;
            },
        };
        let f_activity_type: Option<String> = match rd.opt("activityType") {
            Some(vv) => match vv {
                Value::Str(s) => Some(s.clone()),
                _ => {
                    return None;
                },
            },
            None => None,
        };
        if !rd.done() {
            return None;
        }
        let x = ShareResult { activity_type: f_activity_type };
        proof {
            assert(x.spec_encode() == v@);
            x.lemma_encode_accepted();
        }
        Some(x)
    }
}
impl BridgeDto for ShareOptions {
    open spec fn spec_encode(self) -> ValueView {
        let fs = Seq::<(Seq<char>, ValueView)>::empty();
        let fs = if self.title is Some { fs.push(("title"@, ValueView::Str((self.title->0)@))) } else { fs };
        let fs = if self.text is Some { fs.push(("text"@, ValueView::Str((self.text->0)@))) } else { fs };
        let fs = if self.url is Some { fs.push(("url"@, ValueView::Str((self.url->0)@))) } else { fs };
        let fs = if self.dialog_title is Some { fs.push(("dialogTitle"@, ValueView::Str((self.dialog_title->0)@))) } else { fs };
        let fs = if self.files is Some { fs.push(("files"@, spec_encode_strs((self.files->0)@))) } else { fs };
        ValueView::Obj(fs)
    }

    open spec fn spec_accepts(m: ValueView) -> bool {
        &&& m matches ValueView::Obj(fs)
        &&& {
            let (o0, i0) = opt_field(fs, 0, "title"@);
            (match o0 { Some(w) => w is Str, None => true }) && {
                let (o1, i1) = opt_field(fs, i0, "text"@);
                (match o1 { Some(w) => w is Str, None => true }) && {
                    let (o2, i2) = opt_field(fs, i1, "url"@);
                    (match o2 { Some(w) => w is Str, None => true }) && {
                        let (o3, i3) = opt_field(fs, i2, "dialogTitle"@);
                        (match o3 { Some(w) => w is Str, None => true }) && {
                            let (o4, i4) = opt_field(fs, i3, "files"@);
                            (match o4 { Some(w) => spec_accepts_strs(w), None => true }) && {
                                i4 == fs.len()
                            }
                        }
                    }
                }
            }
        }
    }

    open spec fn spec_typename() -> Seq<char> {
        "ShareOptions"@
    }

    proof fn lemma_encode_accepted(&self) {
        reveal_strlit("dialogTitle");
        reveal_strlit("files");
        reveal_strlit("text");
        reveal_strlit("title");
        reveal_strlit("url");
        assert(("title"@) != ("files"@)) by {
            if ("title"@) == ("files"@) {
                assert(("title"@)[0] == ("files"@)[0]);
            }
        }
        assert(("text"@) != ("files"@)) by {
            assert(("text"@).len() == 4);
            assert(("files"@).len() == 5);
        }
        assert(("url"@) != ("files"@)) by {
            assert(("url"@).len() == 3);
            assert(("files"@).len() == 5);
        }
        assert(("dialogTitle"@) != ("files"@)) by {
            assert(("dialogTitle"@).len() == 11);
            assert(("files"@).len() == 5);
        }
        if self.files is Some {
            lemma_strs_encode_accepted((self.files->0)@);
        }
    }

    fn typename() -> (r: &'static str) {
        "ShareOptions"
    }

    fn to_bridge(&self) -> (r: Value) {
        let mut b = ObjBuilder::new();
        match &self.title {
            Some(x) => {
                b.put("title", Value::Str(x.clone()));
            },
            None => {},
        }
        match &self.text {
            Some(x) => {
                b.put("text", Value::Str(x.clone()));
            },
            None => {},
        }
        match &self.url {
            Some(x) => {
                b.put("url", Value::Str(x.clone()));
            },
            None => {},
        }
        match &self.dialog_title {
            Some(x) => {
                b.put("dialogTitle", Value::Str(x.clone()));
            },
            None => {},
        }
        match &self.files {
            Some(x) => {
                b.put("files", encode_strs(x));
            },
            None => {},
        }
        proof {
            assert(self.spec_encode() == ValueView::Obj(b@));
        }
        b.finish()
    }

    fn from_bridge(v: &Value) -> (r: Option<Self>) {
        let mut rd = match ObjReader::start(v) {
            Some(rd) => rd,
            None => {
                return None;
            },
        };
        let f_title: Option<String> = match rd.opt("title") {
            Some(vv) => match vv {
                Value::Str(s) => Some(s.clone()),
                _ => {
                    return None;
                },
            },
            None => None,
        };
        let f_text: Option<String> = match rd.opt("text") {
            Some(vv) => match vv {
                Value::Str(s) => Some(s.clone()),
                _ => {
                    return None;
                },
            },
            None => None,
        };
        let f_url: Option<String> = match rd.opt("url") {
            Some(vv) => match vv {
                Value::Str(s) => Some(s.clone()),
                _ => {
                    return None;
                },
            },
            None => None,
        };
        let f_dialog_title: Option<String> = match rd.opt("dialogTitle") {
            Some(vv) => match vv {
                Value::Str(s) => Some(s.clone()),
                _ => {
                    return None;
                },
            },
            None => None,
        };
        let f_files: Option<Vec<String>> = match rd.opt("files") {
            Some(vv) => match decode_strs(vv) {
                Some(ys) => Some(ys),
                None => {
                    return None;
                },
            },
            None => None,
        };
        if !rd.done() {
            return None;
        }
        let x = ShareOptions { title: f_title, text: f_text, url: f_url, dialog_title: f_dialog_title, files: f_files };
        proof {
            assert(x.spec_encode() == v@);
            x.lemma_encode_accepted();
        }
        Some(x)
    }
}

} // verus!
