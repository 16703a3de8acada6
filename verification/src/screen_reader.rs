//! The screen-reader plugin's request and response types.

use vstd::prelude::*;
use crate::codec::{BridgeDto, ObjBuilder, ObjReader, opt_field, req_at, req_field};
use crate::value::{Value, ValueView, field_views, lemma_field_views};

verus! {

/// The screen-reader plugin: text-to-speech and the screen-reader state
/// stream.  Its operations are invoked through the bridge; the types below
/// are what crosses it.
pub struct ScreenReader;

/// Options for the `speak` operation.
#[derive(Clone, Default, Debug, PartialEq)]
pub struct SpeakOptions {
    /// The text to speak.
    pub value: String,
    /// The language to speak the text in, as its ISO 639-1 code.
    pub language: Option<String>,
}

/// Whether a screen reader is currently active; also the payload of the
/// screen-reader state change event stream.
#[derive(Clone, Default, Debug, PartialEq)]
pub struct ScreenReaderState {
    /// Whether a screen reader is currently active.
    pub value: bool,
}

impl BridgeDto for ScreenReaderState {
    open spec fn spec_encode(self) -> ValueView {
        ValueView::Obj(seq![("value"@, ValueView::Bool(self.value))])
    }

    open spec fn spec_accepts(m: ValueView) -> bool {
        &&& m matches ValueView::Obj(fs)
        &&& fs.len() == 1
        &&& fs[0].0 == "value"@
        &&& fs[0].1 is Bool
    }

    open spec fn spec_typename() -> Seq<char> {
        "ScreenReaderState"@
    }

    proof fn lemma_encode_accepted(&self) {
    }

    fn typename() -> (r: &'static str) {
        "ScreenReaderState"
    }

    fn to_bridge(&self) -> (r: Value) {
        let mut fields: Vec<(String, Value)> = Vec::new();
        fields.push(("value".to_owned(), Value::Bool(self.value)));
        proof {
            lemma_field_views(fields@);
            assert(field_views(fields@) =~~= seq![("value"@, ValueView::Bool(self.value))]);
        }
        Value::Obj(fields)
    }

    fn from_bridge(v: &Value) -> (r: Option<Self>) {
        match v {
            Value::Obj(fields) => {
                proof {
                    lemma_field_views(fields@);
                }
                if fields.len() != 1 {
                    return None;
                }
                match req_at(fields, 0, "value") {
                    Some(bv) => match bv {
                        Value::Bool(b) => {
                            proof {
                                assert(field_views(fields@)
                                    =~~= seq![("value"@, ValueView::Bool(*b))]);
                            }
                            Some(ScreenReaderState { value: *b })
                        },
                        _ => None,
                    },
                    None => None,
                }
            },
            _ => None,
        }
    }
}

impl BridgeDto for SpeakOptions {
    open spec fn spec_encode(self) -> ValueView {
        ValueView::Obj(
            seq![("value"@, ValueView::Str(self.value@))] + match self.language {
                Some(l) => seq![("language"@, ValueView::Str(l@))],
                None => Seq::empty(),
            },
        )
    }

    open spec fn spec_accepts(m: ValueView) -> bool {
        &&& m matches ValueView::Obj(fs)
        &&& match req_field(fs, 0, "value"@) {
            Some((v0, i1)) => v0 is Str && {
                let (o1, i2) = opt_field(fs, i1, "language"@);
                &&& match o1 {
                    Some(lv) => lv is Str,
                    None => true,
                }
                &&& i2 == fs.len()
            },
            None => false,
        }
    }

    open spec fn spec_typename() -> Seq<char> {
        "SpeakOptions"@
    }

    proof fn lemma_encode_accepted(&self) {
        let m = self.spec_encode();
        if self.language is Some {
            assert(m->Obj_0 =~= seq![
                ("value"@, ValueView::Str(self.value@)),
                ("language"@, ValueView::Str(self.language->0@)),
            ]);
        } else {
            assert(m->Obj_0 =~= seq![("value"@, ValueView::Str(self.value@))]);
        }
    }

    fn typename() -> (r: &'static str) {
        "SpeakOptions"
    }

    fn to_bridge(&self) -> (r: Value) {
        let mut b = ObjBuilder::new();
        b.put("value", Value::Str(self.value.clone()));
        match &self.language {
            Some(l) => {
                b.put("language", Value::Str(l.clone()));
            },
            None => {},
        }
        proof {
            if self.language is Some {
                assert(b@ =~= seq![
                    ("value"@, ValueView::Str(self.value@)),
                    ("language"@, ValueView::Str(self.language->0@)),
                ]);
                assert(seq![("value"@, ValueView::Str(self.value@))]
                    + seq![("language"@, ValueView::Str(self.language->0@))] =~= b@);
            } else {
                assert(seq![("value"@, ValueView::Str(self.value@))]
                    + Seq::<(Seq<char>, ValueView)>::empty() =~= b@);
            }
            assert(self.spec_encode() == ValueView::Obj(b@));
        }
        b.finish()
    }

    fn from_bridge(v: &Value) -> (r: Option<Self>) {
        let mut rd = match ObjReader::start(v) {
            Some(rd) => rd,
            None => {
                return None;
            },
        };
        let value: String = match rd.req("value") {
            Some(sv) => match sv {
                Value::Str(s) => s.clone(),
                _ => {
                    return None;
                },
            },
            None => {
                return None;
            },
        };
        let language: Option<String> = match rd.opt("language") {
            Some(lv) => match lv {
                Value::Str(s) => Some(s.clone()),
                _ => {
                    return None;
                },
            },
            None => None,
        };
        if !rd.done() {
            return None;
        }
        let x = SpeakOptions { value, language };
        proof {
            if x.language is Some {
                assert(rd.fs() =~= seq![
                    ("value"@, ValueView::Str(x.value@)),
                    ("language"@, ValueView::Str(x.language->0@)),
                ]);
                assert(seq![("value"@, ValueView::Str(x.value@))]
                    + seq![("language"@, ValueView::Str(x.language->0@))] =~= rd.fs());
            } else {
                assert(seq![("value"@, ValueView::Str(x.value@))]
                    + Seq::<(Seq<char>, ValueView)>::empty() =~= rd.fs());
            }
            assert(x.spec_encode() == v@);
        }
        Some(x)
    }
}

impl SpeakOptions {
    /// Speak the given text in the default language.
    pub fn of_text(value: &str) -> (r: Self)
        ensures
            r.value@ == value@,
            r.language is None,
    {
        SpeakOptions { value: value.to_owned(), language: None }
    }
}

/// The screen-reader state change event stream.
pub struct ScreenReaderStateChange;

impl crate::listener::ListenerEvent for ScreenReaderStateChange {
    type Payload = ScreenReaderState;

    open spec fn spec_name() -> Seq<char> {
        "stateChange"@
    }

    fn event_name() -> (r: String) {
        "stateChange".to_owned()
    }
}

} // verus!
