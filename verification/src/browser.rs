//! The browser plugin's request types.

use vstd::prelude::*;
#[allow(unused_imports)]
use crate::codec::{BridgeDto, ObjBuilder, ObjReader, accepts_of, decode_seq, decode_strs,
    encode_of, encode_seq, encode_strs, lemma_accepts_of, lemma_encode_of,
    lemma_encode_of_accepted, lemma_seq_encode_accepted, lemma_strs_encode_accepted, opt_field,
    req_field, spec_accepts_seq, spec_accepts_strs, spec_encode_seq, spec_encode_strs};
#[allow(unused_imports)]
use crate::value::{Value, ValueView, field_views, lemma_field_views, str_eq};

verus! {

/// The browser plugin: open pages in the in-app or system browser.
pub struct Browser;

/// How and where to open a page.
#[derive(Clone, Debug, PartialEq)]
pub struct OpenOptions {
    pub url: String,
    pub window_name: Option<String>,
    pub toolbar_color: Option<String>,
    pub presentation_style: Option<PresentationStyle>,
    pub width: Option<u32>,
    pub height: Option<u32>,
}
/// How the browser is presented, on iOS.
#[derive(Clone, Copy, Debug, PartialEq, Eq, Structural)]
pub enum PresentationStyle {
    Fullscreen,
    Popover,
}
impl BridgeDto for PresentationStyle {
    open spec fn spec_encode(self) -> ValueView {
        match self {
            PresentationStyle::Fullscreen => ValueView::Str("fullscreen"@),
            PresentationStyle::Popover => ValueView::Str("popover"@),
        }
    }

    open spec fn spec_accepts(m: ValueView) -> bool {
        m matches ValueView::Str(s) && (s == "fullscreen"@ || s == "popover"@)
    }

    open spec fn spec_typename() -> Seq<char> {
        "PresentationStyle"@
    }

    proof fn lemma_encode_accepted(&self) {
    }

    fn typename() -> (r: &'static str) {
        "PresentationStyle"
    }

    fn to_bridge(&self) -> (r: Value) {
        match self {
            PresentationStyle::Fullscreen => Value::Str("fullscreen".to_owned()),
            PresentationStyle::Popover => Value::Str("popover".to_owned()),
        }
    }

    fn from_bridge(v: &Value) -> (r: Option<Self>) {
        match v {
            Value::Str(s) => {
                if str_eq(s.as_str(), "fullscreen") {
                    Some(PresentationStyle::Fullscreen)
                } else if str_eq(s.as_str(), "popover") {
                    Some(PresentationStyle::Popover)
                } else {
                    None
                }
            },
            _ => None,
        }
    }
}
impl BridgeDto for OpenOptions {
    open spec fn spec_encode(self) -> ValueView {
        let fs = Seq::<(Seq<char>, ValueView)>::empty();
        let fs = fs.push(("url"@, ValueView::Str(self.url@)));
        let fs = if self.window_name is Some { fs.push(("windowName"@, ValueView::Str((self.window_name->0)@))) } else { fs };
        let fs = if self.toolbar_color is Some { fs.push(("toolbarColor"@, ValueView::Str((self.toolbar_color->0)@))) } else { fs };
        let fs = if self.presentation_style is Some { fs.push(("presentationStyle"@, encode_of::<PresentationStyle>((self.presentation_style->0)))) } else { fs };
        let fs = if self.width is Some { fs.push(("width"@, ValueView::Int((self.width->0) as int))) } else { fs };
        let fs = if self.height is Some { fs.push(("height"@, ValueView::Int((self.height->0) as int))) } else { fs };
        ValueView::Obj(fs)
    }

    open spec fn spec_accepts(m: ValueView) -> bool {
        &&& m matches ValueView::Obj(fs)
        &&& {
            match req_field(fs, 0, "url"@) {
                Some((v0, i0)) => v0 is Str && {
                    let (o1, i1) = opt_field(fs, i0, "windowName"@);
                    (match o1 { Some(w) => w is Str, None => true }) && {
                        let (o2, i2) = opt_field(fs, i1, "toolbarColor"@);
                        (match o2 { Some(w) => w is Str, None => true }) && {
                            let (o3, i3) = opt_field(fs, i2, "presentationStyle"@);
                            (match o3 { Some(w) => accepts_of::<PresentationStyle>(w), None => true }) && {
                                let (o4, i4) = opt_field(fs, i3, "width"@);
                                (match o4 { Some(w) => (w matches ValueView::Int(n) && 0 <= n <= u32::MAX as int), None => true }) && {
                                    let (o5, i5) = opt_field(fs, i4, "height"@);
                                    (match o5 { Some(w) => (w matches ValueView::Int(n) && 0 <= n <= u32::MAX as int), None => true }) && {
                                        i5 == fs.len()
                                    }
                                }
                            }
                        }
                    }
                },
                None => false,
            }
        }
    }

    open spec fn spec_typename() -> Seq<char> {
        "OpenOptions"@
    }

    proof fn lemma_encode_accepted(&self) {
        reveal_strlit("height");
        reveal_strlit("presentationStyle");
        reveal_strlit("toolbarColor");
        reveal_strlit("width");
        reveal_strlit("windowName");
        assert(("windowName"@) != ("presentationStyle"@)) by {
            assert(("windowName"@).len() == 10);
            assert(("presentationStyle"@).len() == 17);
        }
        assert(("windowName"@) != ("width"@)) by {
            assert(("windowName"@).len() == 10);
            assert(("width"@).len() == 5);
        }
        assert(("windowName"@) != ("height"@)) by {
            assert(("windowName"@).len() == 10);
            assert(("height"@).len() == 6);
        }
        assert(("toolbarColor"@) != ("presentationStyle"@)) by {
            assert(("toolbarColor"@).len() == 12);
            assert(("presentationStyle"@).len() == 17);
        }
        assert(("toolbarColor"@) != ("width"@)) by {
            assert(("toolbarColor"@).len() == 12);
            assert(("width"@).len() == 5);
        }
        assert(("toolbarColor"@) != ("height"@)) by {
            assert(("toolbarColor"@).len() == 12);
            assert(("height"@).len() == 6);
        }
        assert(("presentationStyle"@) != ("width"@)) by {
            assert(("presentationStyle"@).len() == 17);
            assert(("width"@).len() == 5);
        }
        assert(("presentationStyle"@) != ("height"@)) by {
            assert(("presentationStyle"@).len() == 17);
            assert(("height"@).len() == 6);
        }
        if self.presentation_style is Some {
            lemma_encode_of_accepted::<PresentationStyle>(self.presentation_style->0);
        }
    }

    fn typename() -> (r: &'static str) {
        "OpenOptions"
    }

    fn to_bridge(&self) -> (r: Value) {
        let mut b = ObjBuilder::new();
        b.put("url", Value::Str(self.url.clone()));
        match &self.window_name {
            Some(x) => {
                b.put("windowName", Value::Str(x.clone()));
            },
            None => {},
        }
        match &self.toolbar_color {
            Some(x) => {
                b.put("toolbarColor", Value::Str(x.clone()));
            },
            None => {},
        }
        match &self.presentation_style {
            Some(x) => {
                proof {
                    lemma_encode_of::<PresentationStyle>(*x);
                }
                b.put("presentationStyle", x.to_bridge());
            },
            None => {},
        }
        match &self.width {
            Some(x) => {
                b.put("width", Value::Int(*x as i64));
            },
            None => {},
        }
        match &self.height {
            Some(x) => {
                b.put("height", Value::Int(*x as i64));
            },
            None => {},
        }
        proof {
            assert(self.spec_encode() == ValueView::Obj(b@));
        }
        b.finish()
    }

    fn from_bridge(v: &Value) -> (r: Option<Self>) {
        let mut rd = match ObjReader::start(v) {
            Some(rd) => rd,
            None => {
                return None;
            },
        };
        let f_url: String = match rd.req("url") {
            Some(vv) => match vv {
                Value::Str(s) => s.clone(),
                _ => {
                    return None;
                },
            },
            None => {
                return None;
            },
        };
        let f_window_name: Option<String> = match rd.opt("windowName") {
            Some(vv) => match vv {
                Value::Str(s) => Some(s.clone()),
                _ => {
                    return None;
                },
            },
            None => None,
        };
        let f_toolbar_color: Option<String> = match rd.opt("toolbarColor") {
            Some(vv) => match vv {
                Value::Str(s) => Some(s.clone()),
                _ => {
                    return None;
                },
            },
            None => None,
        };
        let f_presentation_style: Option<PresentationStyle> = match rd.opt("presentationStyle") {
            Some(vv) => match PresentationStyle::from_bridge(vv) {
                Some(y) => {
                    proof {
                        lemma_accepts_of::<PresentationStyle>(vv@);
                        lemma_encode_of::<PresentationStyle>(y);
                    }
                    Some(y)
                },
                None => {
                    proof {
                        lemma_accepts_of::<PresentationStyle>(vv@);
                    }
                    return None;
                },
            },
            None => None,
        };
        let f_width: Option<u32> = match rd.opt("width") {
            Some(vv) => match vv {
                Value::Int(n) => {
                    if *n < 0 || *n > u32::MAX as i64 {
                        return None;
                    }
                    Some(*n as u32)
                },
                _ => {
                    return None;
                },
            },
            None => None,
        };
        let f_height: Option<u32> = match rd.opt("height") {
            Some(vv) => match vv {
                Value::Int(n) => {
                    if *n < 0 || *n > u32::MAX as i64 {
                        return None;
                    }
                    Some(*n as u32)
                },
                _ => {
                    return None;
                },
            },
            None => None,
        };
        if !rd.done() {
            return None;
        }
        let x = OpenOptions { url: f_url, window_name: f_window_name, toolbar_color: f_toolbar_color, presentation_style: f_presentation_style, width: f_width, height: f_height };
        proof {
            assert(x.spec_encode() == v@);
            x.lemma_encode_accepted();
        }
        Some(x)
    }
}

} // verus!
