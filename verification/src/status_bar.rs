//! The status-bar plugin's request types.

use vstd::prelude::*;
#[allow(unused_imports)]
use crate::codec::{BridgeDto, ObjBuilder, ObjReader, accepts_of, decode_seq, decode_strs,
    encode_of, encode_seq, encode_strs, lemma_accepts_of, lemma_encode_of,
    lemma_encode_of_accepted, lemma_seq_encode_accepted, lemma_strs_encode_accepted, opt_field,
    req_field, spec_accepts_seq, spec_accepts_strs, spec_encode_seq, spec_encode_strs};
#[allow(unused_imports)]
use crate::value::{Value, ValueView, field_views, lemma_field_views, str_eq};

verus! {

/// The status-bar plugin: style, colour and visibility of the status bar.
pub struct StatusBar;

/// A hex colour for the status bar background.
#[derive(Clone, Debug, PartialEq)]
pub struct BackgroundColorOptions {
    pub color: String,
}
/// The text style of the status bar.
#[derive(Clone, Debug, PartialEq)]
pub struct StyleOptions {
    pub style: Style,
}
/// The style of the status-bar text.
#[derive(Clone, Copy, Debug, PartialEq, Eq, Structural)]
pub enum Style {
    Default,
    Dark,
    Light,
}
/// Whether the status bar should overlay the web view.
#[derive(Clone, Debug, PartialEq)]
pub struct SetOverlaysWebViewOptions {
    pub overlay: bool,
}
impl BridgeDto for BackgroundColorOptions {
    open spec fn spec_encode(self) -> ValueView {
        let fs = Seq::<(Seq<char>, ValueView)>::empty();
        let fs = fs.push(("color"@, ValueView::Str(self.color@)));
        ValueView::Obj(fs)
    }

    open spec fn spec_accepts(m: ValueView) -> bool {
        &&& m matches ValueView::Obj(fs)
        &&& {
            match req_field(fs, 0, "color"@) {
                Some((v0, i0)) => v0 is Str && {
                    i0 == fs.len()
                },
                None => false,
            }
        }
    }

    open spec fn spec_typename() -> Seq<char> {
        "BackgroundColorOptions"@
    }

    proof fn lemma_encode_accepted(&self) {
    }

    fn typename() -> (r: &'static str) {
        "BackgroundColorOptions"
    }

    fn to_bridge(&self) -> (r: Value) {
        let mut b = ObjBuilder::new();
        b.put("color", Value::Str(self.color.clone()));
        proof {
            assert(self.spec_encode() == ValueView::Obj(b@));
        }
        b.finish()
    }

    fn from_bridge(v: &Value) -> (r: Option<Self>) {
        let mut rd = match ObjReader::start(v) {
            Some(rd) => rd,
            None => {
                return None;
            },
        };
        let f_color: String = match rd.req("color") {
            Some(vv) => match vv {
                Value::Str(s) => s.clone(),
                _ => {
                    return None;
                },
            },
            None => {
                return None;
            },
        };
        if !rd.done() {
            return None;
        }
        let x = BackgroundColorOptions { color: f_color };
        proof {
            assert(x.spec_encode() == v@);
            x.lemma_encode_accepted();
        }
        Some(x)
    }
}
impl BridgeDto for StyleOptions {
    open spec fn spec_encode(self) -> ValueView {
        let fs = Seq::<(Seq<char>, ValueView)>::empty();
        let fs = fs.push(("style"@, encode_of::<Style>(self.style)));
        ValueView::Obj(fs)
    }

    open spec fn spec_accepts(m: ValueView) -> bool {
        &&& m matches ValueView::Obj(fs)
        &&& {
            match req_field(fs, 0, "style"@) {
                Some((v0, i0)) => accepts_of::<Style>(v0) && {
                    i0 == fs.len()
                },
                None => false,
            }
        }
    }

    open spec fn spec_typename() -> Seq<char> {
        "StyleOptions"@
    }

    proof fn lemma_encode_accepted(&self) {
        lemma_encode_of_accepted::<Style>(self.style);
    }

    fn typename() -> (r: &'static str) {
        "StyleOptions"
    }

    fn to_bridge(&self) -> (r: Value) {
        let mut b = ObjBuilder::new();
        proof {
            lemma_encode_of::<Style>(self.style);
        }
        b.put("style", self.style.to_bridge());
        proof {
            assert(self.spec_encode() == ValueView::Obj(b@));
        }
        b.finish()
    }

    fn from_bridge(v: &Value) -> (r: Option<Self>) {
        let mut rd = match ObjReader::start(v) {
            Some(rd) => rd,
            None => {
                return None;
            },
        };
        let f_style: Style = match rd.req("style") {
            Some(vv) => match Style::from_bridge(vv) {
                Some(y) => {
                    proof {
                        lemma_accepts_of::<Style>(vv@);
                        lemma_encode_of::<Style>(y);
                    }
                    y
                },
                None => {
                    proof {
                        lemma_accepts_of::<Style>(vv@);
                    }
                    return None;
                },
            },
            None => {
                return None;
            },
        };
        if !rd.done() {
            return None;
        }
        let x = StyleOptions { style: f_style };
        proof {
            assert(x.spec_encode() == v@);
            x.lemma_encode_accepted();
        }
        Some(x)
    }
}
impl BridgeDto for Style {
    open spec fn spec_encode(self) -> ValueView {
        match self {
            Style::Default => ValueView::Str("DEFAULT"@),
            Style::Dark => ValueView::Str("DARK"@),
            Style::Light => ValueView::Str("LIGHT"@),
        }
    }

    open spec fn spec_accepts(m: ValueView) -> bool {
        m matches ValueView::Str(s) && (s == "DEFAULT"@ || s == "DARK"@ || s == "LIGHT"@)
    }

    open spec fn spec_typename() -> Seq<char> {
        "Style"@
    }

    proof fn lemma_encode_accepted(&self) {
    }

    fn typename() -> (r: &'static str) {
        "Style"
    }

    fn to_bridge(&self) -> (r: Value) {
        match self {
            Style::Default => Value::Str("DEFAULT".to_owned()),
            Style::Dark => Value::Str("DARK".to_owned()),
            Style::Light => Value::Str("LIGHT".to_owned()),
        }
    }

    fn from_bridge(v: &Value) -> (r: Option<Self>) {
        match v {
            Value::Str(s) => {
                if str_eq(s.as_str(), "DEFAULT") {
                    Some(Style::Default)
                } else if str_eq(s.as_str(), "DARK") {
                    Some(Style::Dark)
                } else if str_eq(s.as_str(), "LIGHT") {
                    Some(Style::Light)
                } else {
                    None
                }
            },
            _ => None,
        }
    }
}
impl BridgeDto for SetOverlaysWebViewOptions {
    open spec fn spec_encode(self) -> ValueView {
        let fs = Seq::<(Seq<char>, ValueView)>::empty();
        let fs = fs.push(("overlay"@, ValueView::Bool(self.overlay)));
        ValueView::Obj(fs)
    }

    open spec fn spec_accepts(m: ValueView) -> bool {
        &&& m matches ValueView::Obj(fs)
        &&& {
            match req_field(fs, 0, "overlay"@) {
                Some((v0, i0)) => v0 is Bool && {
                    i0 == fs.len()
                },
                None => false,
            }
        }
    }

    open spec fn spec_typename() -> Seq<char> {
        "SetOverlaysWebViewOptions"@
    }

    proof fn lemma_encode_accepted(&self) {
    }

    fn typename() -> (r: &'static str) {
        "SetOverlaysWebViewOptions"
    }

    fn to_bridge(&self) -> (r: Value) {
        let mut b = ObjBuilder::new();
        b.put("overlay", Value::Bool(self.overlay));
        proof {
            assert(self.spec_encode() == ValueView::Obj(b@));
        }
        b.finish()
    }

    fn from_bridge(v: &Value) -> (r: Option<Self>) {
        let mut rd = match ObjReader::start(v) {
            Some(rd) => rd,
            None => {
                return None;
            },
        };
        let f_overlay: bool = match rd.req("overlay") {
            Some(vv) => match vv {
                Value::Bool(bb) => *bb,
                _ => {
                    return None;
                },
            },
            None => {
                return None;
            },
        };
        if !rd.done() {
            return None;
        }
        let x = SetOverlaysWebViewOptions { overlay: f_overlay };
        proof {
            assert(x.spec_encode() == v@);
            x.lemma_encode_accepted();
        }
        Some(x)
    }
}
impl From<Style> for StyleOptions {
    fn from(style: Style) -> (r: Self) {
        StyleOptions { style }
    }
}

impl vstd::std_specs::convert::FromSpecImpl<Style> for StyleOptions {
    open spec fn obeys_from_spec() -> bool {
        true
    }

    open spec fn from_spec(style: Style) -> Self {
        StyleOptions { style }
    }
}

impl From<bool> for SetOverlaysWebViewOptions {
    fn from(overlay: bool) -> (r: Self) {
        SetOverlaysWebViewOptions { overlay }
    }
}

impl vstd::std_specs::convert::FromSpecImpl<bool> for SetOverlaysWebViewOptions {
    open spec fn obeys_from_spec() -> bool {
        true
    }

    open spec fn from_spec(overlay: bool) -> Self {
        SetOverlaysWebViewOptions { overlay }
    }
}

} // verus!
