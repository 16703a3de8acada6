//! The safe-area plugin's request types.

use vstd::prelude::*;
#[allow(unused_imports)]
use crate::codec::{BridgeDto, ObjBuilder, ObjReader, accepts_of, decode_seq, decode_strs,
    encode_of, encode_seq, encode_strs, lemma_accepts_of, lemma_encode_of,
    lemma_encode_of_accepted, lemma_seq_encode_accepted, lemma_strs_encode_accepted, opt_field,
    req_field, spec_accepts_seq, spec_accepts_strs, spec_encode_seq, spec_encode_strs};
#[allow(unused_imports)]
use crate::value::{Value, ValueView, field_views, lemma_field_views, str_eq};

verus! {

/// The safe-area plugin: draw edge to edge behind the system bars.
pub struct SafeArea;

/// Options for enabling the safe area handling.
#[derive(Clone, Debug, PartialEq)]
pub struct Options {
    pub config: Config,
}
/// How the system bars are coloured and offset.
#[derive(Clone, Debug, PartialEq)]
pub struct Config {
    pub custom_colors_for_system_bars: bool,
    pub status_bar_color: String,
    pub status_bar_content: LightOrDark,
    pub navigation_bar_color: String,
    pub navigation_bar_content: LightOrDark,
    pub offset: u32,
}
/// The colour of the content of a system bar.
#[derive(Clone, Copy, Debug, PartialEq, Eq, Structural)]
pub enum LightOrDark {
    Light,
    Dark,
}
impl BridgeDto for LightOrDark {
    open spec fn spec_encode(self) -> ValueView {
        match self {
            LightOrDark::Light => ValueView::Str("light"@),
            LightOrDark::Dark => ValueView::Str("dark"@),
        }
    }

    open spec fn spec_accepts(m: ValueView) -> bool {
        m matches ValueView::Str(s) && (s == "light"@ || s == "dark"@)
    }

    open spec fn spec_typename() -> Seq<char> {
        "LightOrDark"@
    }

    proof fn lemma_encode_accepted(&self) {
    }

    fn typename() -> (r: &'static str) {
        "LightOrDark"
    }

    fn to_bridge(&self) -> (r: Value) {
        match self {
            LightOrDark::Light => Value::Str("light".to_owned()),
            LightOrDark::Dark => Value::Str("dark".to_owned()),
        }
    }

    fn from_bridge(v: &Value) -> (r: Option<Self>) {
        match v {
            Value::Str(s) => {
                if str_eq(s.as_str(), "light") {
                    Some(LightOrDark::Light)
                } else if str_eq(s.as_str(), "dark") {
                    Some(LightOrDark::Dark)
                } else {
                    None
                }
            },
            _ => None,
        }
    }
}
impl BridgeDto for Config {
    open spec fn spec_encode(self) -> ValueView {
        let fs = Seq::<(Seq<char>, ValueView)>::empty();
        let fs = fs.push(("customColorsForSystemBars"@, ValueView::Bool(self.custom_colors_for_system_bars)));
        let fs = fs.push(("statusBarColor"@, ValueView::Str(self.status_bar_color@)));
        let fs = fs.push(("statusBarContent"@, encode_of::<LightOrDark>(self.status_bar_content)));
        let fs = fs.push(("navigationBarColor"@, ValueView::Str(self.navigation_bar_color@)));
        let fs = fs.push(("navigationBarContent"@, encode_of::<LightOrDark>(self.navigation_bar_content)));
        let fs = fs.push(("offset"@, ValueView::Int(self.offset as int)));
        ValueView::Obj(fs)
    }

    open spec fn spec_accepts(m: ValueView) -> bool {
        &&& m matches ValueView::Obj(fs)
        &&& {
            match req_field(fs, 0, "customColorsForSystemBars"@) {
                Some((v0, i0)) => v0 is Bool && {
                    match req_field(fs, i0, "statusBarColor"@) {
                        Some((v1, i1)) => v1 is Str && {
                            match req_field(fs, i1, "statusBarContent"@) {
                                Some((v2, i2)) => accepts_of::<LightOrDark>(v2) && {
                                    match req_field(fs, i2, "navigationBarColor"@) {
                                        Some((v3, i3)) => v3 is Str && {
                                            match req_field(fs, i3, "navigationBarContent"@) {
                                                Some((v4, i4)) => accepts_of::<LightOrDark>(v4) && {
                                                    match req_field(fs, i4, "offset"@) {
                                                        Some((v5, i5)) => (v5 matches ValueView::Int(n) && 0 <= n <= u32::MAX as int) && {
                                                            i5 == fs.len()
                                                        },
                                                        None => false,
                                                    }
                                                },
                                                None => false,
                                            }
                                        },
                                        None => false,
                                    }
                                },
                                None => false,
                            }
                        },
                        None => false,
                    }
                },
                None => false,
            }
        }
    }

    open spec fn spec_typename() -> Seq<char> {
        "Config"@
    }

    proof fn lemma_encode_accepted(&self) {
        lemma_encode_of_accepted::<LightOrDark>(self.status_bar_content);
        lemma_encode_of_accepted::<LightOrDark>(self.navigation_bar_content);
    }

    fn typename() -> (r: &'static str) {
        "Config"
    }

    fn to_bridge(&self) -> (r: Value) {
        let mut b = ObjBuilder::new();
        b.put("customColorsForSystemBars", Value::Bool(self.custom_colors_for_system_bars));
        b.put("statusBarColor", Value::Str(self.status_bar_color.clone()));
        proof {
            lemma_encode_of::<LightOrDark>(self.status_bar_content);
        }
        b.put("statusBarContent", self.status_bar_content.to_bridge());
        b.put("navigationBarColor", Value::Str(self.navigation_bar_color.clone()));
        proof {
            lemma_encode_of::<LightOrDark>(self.navigation_bar_content);
        }
        b.put("navigationBarContent", self.navigation_bar_content.to_bridge());
        b.put("offset", Value::Int(self.offset as i64));
        proof {
            assert(self.spec_encode() == ValueView::Obj(b@));
        }
        b.finish()
    }

    fn from_bridge(v: &Value) -> (r: Option<Self>) {
        let mut rd = match ObjReader::start(v) {
            Some(rd) => rd,
            None => {
                return None;
            },
        };
        let f_custom_colors_for_system_bars: bool = match rd.req("customColorsForSystemBars") {
            Some(vv) => match vv {
                Value::Bool(bb) => *bb,
                _ => {
                    return None;
                },
            },
            None => {
                return None;
            },
        };
        let f_status_bar_color: String = match rd.req("statusBarColor") {
            Some(vv) => match vv {
                Value::Str(s) => s.clone(),
                _ => {
                    return None;
                },
            },
            None => {
                return None;
            },
        };
        let f_status_bar_content: LightOrDark = match rd.req("statusBarContent") {
            Some(vv) => match LightOrDark::from_bridge(vv) {
                Some(y) => {
                    proof {
                        lemma_accepts_of::<LightOrDark>(vv@);
                        lemma_encode_of::<LightOrDark>(y);
                    }
                    y
                },
                None => {
                    proof {
                        lemma_accepts_of::<LightOrDark>(vv@);
                    }
                    return None;
                },
            },
            None => {
                return None;
            },
        };
        let f_navigation_bar_color: String = match rd.req("navigationBarColor") {
            Some(vv) => match vv {
                Value::Str(s) => s.clone(),
                _ => {
                    return None;
                },
            },
            None => {
                return None;
            },
        };
        let f_navigation_bar_content: LightOrDark = match rd.req("navigationBarContent") {
            Some(vv) => match LightOrDark::from_bridge(vv) {
                Some(y) => {
                    proof {
                        lemma_accepts_of::<LightOrDark>(vv@);
                        lemma_encode_of::<LightOrDark>(y);
                    }
                    y
                },
                None => {
                    proof {
                        lemma_accepts_of::<LightOrDark>(vv@);
                    }
                    return None;
                },
            },
            None => {
                return None;
            },
        };
        let f_offset: u32 = match rd.req("offset") {
            Some(vv) => match vv {
                Value::Int(n) => {
                    if *n < 0 || *n > u32::MAX as i64 {
                        return None;
                    }
                    *n as u32
                },
                _ => {
                    return None;
                },
            },
            None => {
                return None;
            },
        };
        if !rd.done() {
            return None;
        }
        let x = Config { custom_colors_for_system_bars: f_custom_colors_for_system_bars, status_bar_color: f_status_bar_color, status_bar_content: f_status_bar_content, navigation_bar_color: f_navigation_bar_color, navigation_bar_content: f_navigation_bar_content, offset: f_offset };
        proof {
            assert(x.spec_encode() == v@);
            x.lemma_encode_accepted();
        }
        Some(x)
    }
}
impl BridgeDto for Options {
    open spec fn spec_encode(self) -> ValueView {
        let fs = Seq::<(Seq<char>, ValueView)>::empty();
        let fs = fs.push(("config"@, encode_of::<Config>(self.config)));
        ValueView::Obj(fs)
    }

    open spec fn spec_accepts(m: ValueView) -> bool {
        &&& m matches ValueView::Obj(fs)
        &&& {
            match req_field(fs, 0, "config"@) {
                Some((v0, i0)) => accepts_of::<Config>(v0) && {
                    i0 == fs.len()
                },
                None => false,
            }
        }
    }

    open spec fn spec_typename() -> Seq<char> {
        "Options"@
    }

    proof fn lemma_encode_accepted(&self) {
        lemma_encode_of_accepted::<Config>(self.config);
    }

    fn typename() -> (r: &'static str) {
        "Options"
    }

    fn to_bridge(&self) -> (r: Value) {
        let mut b = ObjBuilder::new();
        proof {
            lemma_encode_of::<Config>(self.config);
        }
        b.put("config", self.config.to_bridge());
        proof {
            assert(self.spec_encode() == ValueView::Obj(b@));
        }
        b.finish()
    }

    fn from_bridge(v: &Value) -> (r: Option<Self>) {
        let mut rd = match ObjReader::start(v) {
            Some(rd) => rd,
            None => {
                return None;
            },
        };
        let f_config: Config = match rd.req("config") {
            Some(vv) => match Config::from_bridge(vv) {
                Some(y) => {
                    proof {
                        lemma_accepts_of::<Config>(vv@);
                        lemma_encode_of::<Config>(y);
                    }
                    y
                },
                None => {
                    proof {
                        lemma_accepts_of::<Config>(vv@);
                    }
                    return None;
                },
            },
            None => {
                return None;
            },
        };
        if !rd.done() {
            return None;
        }
        let x = Options { config: f_config };
        proof {
            assert(x.spec_encode() == v@);
            x.lemma_encode_accepted();
        }
        Some(x)
    }
}
impl Default for LightOrDark {
    /// Light content.
    fn default() -> (r: Self)
        ensures
            r == LightOrDark::Light,
    {
        LightOrDark::Light
    }
}

impl Default for Config {
    /// Black bars with light content and no extra offset.
    fn default() -> (r: Self)
        ensures
            r.custom_colors_for_system_bars == true,
            r.status_bar_color@ == "#000000"@,
            r.status_bar_content == LightOrDark::Light,
            r.navigation_bar_color@ == "#000000"@,
            r.navigation_bar_content == LightOrDark::Light,
            r.offset == 0u32,
    {
        Config {
            custom_colors_for_system_bars: true,
            status_bar_color: "#000000".to_owned(),
            status_bar_content: LightOrDark::Light,
            navigation_bar_color: "#000000".to_owned(),
            navigation_bar_content: LightOrDark::Light,
            offset: 0,
        }
    }
}

impl Default for Options {
    /// The default configuration.
    fn default() -> (r: Self)
        ensures
            r.config.custom_colors_for_system_bars == true,
            r.config.status_bar_color@ == "#000000"@,
            r.config.status_bar_content == LightOrDark::Light,
            r.config.navigation_bar_color@ == "#000000"@,
            r.config.navigation_bar_content == LightOrDark::Light,
            r.config.offset == 0u32,
    {
        Options { config: Config::default() }
    }
}

impl SafeArea {
    /// Builds the request that enables safe-area handling with the given
    /// options; the caller invokes the plugin's `enable` operation with it
    /// and completes the call with `run_unit_unit`.
    pub fn enable(options: &Options) -> (payload: Value)
        ensures
            payload@ == options.spec_encode(),
    {
        options.to_bridge()
    }

    /// Builds the request that disables safe-area handling again; invoked
    /// and completed like [`SafeArea::enable`].
    pub fn disable(options: &Options) -> (payload: Value)
        ensures
            payload@ == options.spec_encode(),
    {
        options.to_bridge()
    }
}

} // verus!
