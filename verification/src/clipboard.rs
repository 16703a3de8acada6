//! The clipboard plugin's request and response types.

use vstd::prelude::*;
#[allow(unused_imports)]
use crate::codec::{BridgeDto, ObjBuilder, ObjReader, accepts_of, decode_seq, decode_strs,
    encode_of, encode_seq, encode_strs, lemma_accepts_of, lemma_encode_of,
    lemma_encode_of_accepted, lemma_seq_encode_accepted, lemma_strs_encode_accepted, opt_field,
    req_field, spec_accepts_seq, spec_accepts_strs, spec_encode_seq, spec_encode_strs};
#[allow(unused_imports)]
use crate::value::{Value, ValueView, field_views, lemma_field_views, str_eq};

verus! {

/// The clipboard plugin: reading and writing the system clipboard.
pub struct Clipboard;

/// The data to write to the clipboard.
#[derive(Clone, Debug, PartialEq)]
pub struct WriteOptions {
    pub string: Option<String>,
    pub image: Option<String>,
    pub url: Option<String>,
    pub label: Option<String>,
}
/// The data read from the clipboard and what kind of data it is.
#[derive(Clone, Debug, PartialEq)]
pub struct ReadResult {
    pub value: String,
    pub kind: String,
}
impl BridgeDto for WriteOptions {
    open spec fn spec_encode(self) -> ValueView {
        let fs = Seq::<(Seq<char>, ValueView)>::empty();
        let fs = if self.string is Some { fs.push(("string"@, ValueView::Str((self.string->0)@))) } else { fs };
        let fs = if self.image is Some { fs.push(("image"@, ValueView::Str((self.image->0)@))) } else { fs };
        let fs = if self.url is Some { fs.push(("url"@, ValueView::Str((self.url->0)@))) } else { fs };
        let fs = if self.label is Some { fs.push(("label"@, ValueView::Str((self.label->0)@))) } else { fs };
        ValueView::Obj(fs)
    }

    open spec fn spec_accepts(m: ValueView) -> bool {
        &&& m matches ValueView::Obj(fs)
        &&& {
            let (o0, i0) = opt_field(fs, 0, "string"@);
            (match o0 { Some(w) => w is Str, None => true }) && {
                let (o1, i1) = opt_field(fs, i0, "image"@);
                (match o1 { Some(w) => w is Str, None => true }) && {
                    let (o2, i2) = opt_field(fs, i1, "url"@);
                    (match o2 { Some(w) => w is Str, None => true }) && {
                        let (o3, i3) = opt_field(fs, i2, "label"@);
                        (match o3 { Some(w) => w is Str, None => true }) && {
                            i3 == fs.len()
                        }
                    }
                }
            }
        }
    }

    open spec fn spec_typename() -> Seq<char> {
        "WriteOptions"@
    }

    proof fn lemma_encode_accepted(&self) {
    }

    fn typename() -> (r: &'static str) {
        "WriteOptions"
    }

    fn to_bridge(&self) -> (r: Value) {
        let mut b = ObjBuilder::new();
        match &self.string {
            Some(x) => {
                b.put("string", Value::Str(x.clone()));
            },
            None => {},
        }
        match &self.image {
            Some(x) => {
                b.put("image", Value::Str(x.clone()));
            },
            None => {},
        }
        match &self.url {
            Some(x) => {
                b.put("url", Value::Str(x.clone()));
            },
            None => {},
        }
        match &self.label {
            Some(x) => {
                b.put("label", Value::Str(x.clone()));
            },
            None => {},
        }
        proof {
            assert(self.spec_encode() == ValueView::Obj(b@));
        }
        b.finish()
    }

    fn from_bridge(v: &Value) -> (r: Option<Self>) {
        let mut rd = match ObjReader::start(v) {
            Some(rd) => rd,
            None => {
                return None;
            },
        };
        let f_string: Option<String> = match rd.opt("string") {
            Some(vv) => match vv {
                Value::Str(s) => Some(s.clone()),
                _ => {
                    return None;
                },
            },
            None => None,
        };
        let f_image: Option<String> = match rd.opt("image") {
            Some(vv) => match vv {
                Value::Str(s) => Some(s.clone()),
                _ => {
                    return None;
                },
            },
            None => None,
        };
        let f_url: Option<String> = match rd.opt("url") {
            Some(vv) => match vv {
                Value::Str(s) => Some(s.clone()),
                _ => {
                    return None;
                },
            },
            None => None,
        };
        let f_label: Option<String> = match rd.opt("label") {
            Some(vv) => match vv {
                Value::Str(s) => Some(s.clone()),
                _ => {
                    return None;
                },
            },
            None => None,
        };
        if !rd.done() {
            return None;
        }
        let x = WriteOptions { string: f_string, image: f_image, url: f_url, label: f_label };
        proof {
            assert(x.spec_encode() == v@);
            x.lemma_encode_accepted();
        }
        Some(x)
    }
}
impl BridgeDto for ReadResult {
    open spec fn spec_encode(self) -> ValueView {
        let fs = Seq::<(Seq<char>, ValueView)>::empty();
        let fs = fs.push(("value"@, ValueView::Str(self.value@)));
        let fs = fs.push(("type"@, ValueView::Str(self.kind@)));
        ValueView::Obj(fs)
    }

    open spec fn spec_accepts(m: ValueView) -> bool {
        &&& m matches ValueView::Obj(fs)
        &&& {
            match req_field(fs, 0, "value"@) {
                Some((v0, i0)) => v0 is Str && {
                    match req_field(fs, i0, "type"@) {
                        Some((v1, i1)) => v1 is Str && {
                            i1 == fs.len()
                        },
                        None => false,
                    }
                },
                None => false,
            }
        }
    }

    open spec fn spec_typename() -> Seq<char> {
        "ReadResult"@
    }

    proof fn lemma_encode_accepted(&self) {
    }

    fn typename() -> (r: &'static str) {
        "ReadResult"
    }

    fn to_bridge(&self) -> (r: Value) {
        let mut b = ObjBuilder::new();
        b.put("value", Value::Str(self.value.clone()));
        b.put("type", Value::Str(self.kind.clone()));
        proof {
            assert(self.spec_encode() == ValueView::Obj(b@));
        }
        b.finish()
    }

    fn from_bridge(v: &Value) -> (r: Option<Self>) {
        let mut rd = match ObjReader::start(v) {
            Some(rd) => rd,
            None => {
                return None;
            },
        };
        let f_value: String = match rd.req("value") {
            Some(vv) => match vv {
                Value::Str(s) => s.clone(),
                _ => {
                    return None;
                },
            },
            None => {
                return None;
            },
        };
        let f_kind: String = match rd.req("type") {
            Some(vv) => match vv {
                Value::Str(s) => s.clone(),
                _ => {
                    return None;
                },
            },
            None => {
                return None;
            },
        };
        if !rd.done() {
            return None;
        }
        let x = ReadResult { value: f_value, kind: f_kind };
        proof {
            assert(x.spec_encode() == v@);
            x.lemma_encode_accepted();
        }
        Some(x)
    }
}

} // verus!
