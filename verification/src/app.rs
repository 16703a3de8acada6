//! The app plugin's response and event types.

use vstd::prelude::*;
#[allow(unused_imports)]
use crate::codec::{BridgeDto, ObjBuilder, ObjReader, accepts_of, decode_seq, decode_strs,
    encode_of, encode_seq, encode_strs, lemma_accepts_of, lemma_encode_of,
    lemma_encode_of_accepted, lemma_seq_encode_accepted, lemma_strs_encode_accepted, opt_field,
    req_field, spec_accepts_seq, spec_accepts_strs, spec_encode_seq, spec_encode_strs};
#[allow(unused_imports)]
use crate::value::{Value, ValueView, field_views, lemma_field_views, str_eq};
use crate::helpers::InnerError;

verus! {

/// The app plugin: application state, launch URLs and lifecycle events.
pub struct App;

/// The name, identifier and version of the app.
#[derive(Clone, Debug, PartialEq)]
pub struct AppInfo {
    pub name: String,
    pub id: String,
    pub build: String,
    pub version: String,
}
/// Whether the app is active; also the payload of the state change event stream.
#[derive(Clone, Debug, PartialEq)]
pub struct AppState {
    pub is_active: bool,
}
/// The URL the app was launched with.
#[derive(Clone, Debug, PartialEq)]
pub struct AppLaunchUrl {
    pub url: String,
}
/// The URL and context an app-open event carries.
#[derive(Clone, Debug, PartialEq)]
pub struct URLOpenListenerEvent {
    pub url: String,
    pub ios_source_application: Option<String>,
    pub ios_open_in_place: Option<bool>,
}
/// A plugin call result restored after the app was relaunched.
#[derive(Clone, Debug, PartialEq)]
pub struct RestoredListenerEvent {
    pub plugin_id: String,
    pub method_name: String,
    pub data: String,
    pub success: bool,
    pub error: Option<InnerError>,
}
/// The hardware back-button event.
#[derive(Clone, Debug, PartialEq)]
pub struct BackButtonListenerEvent {
    pub can_go_back: bool,
}
impl BridgeDto for AppInfo {
    open spec fn spec_encode(self) -> ValueView {
        let fs = Seq::<(Seq<char>, ValueView)>::empty();
        let fs = fs.push(("name"@, ValueView::Str(self.name@)));
        let fs = fs.push(("id"@, ValueView::Str(self.id@)));
        let fs = fs.push(("build"@, ValueView::Str(self.build@)));
        let fs = fs.push(("version"@, ValueView::Str(self.version@)));
        ValueView::Obj(fs)
    }

    open spec fn spec_accepts(m: ValueView) -> bool {
        &&& m matches ValueView::Obj(fs)
        &&& {
            match req_field(fs, 0, "name"@) {
                Some((v0, i0)) => v0 is Str && {
                    match req_field(fs, i0, "id"@) {
                        Some((v1, i1)) => v1 is Str && {
                            match req_field(fs, i1, "build"@) {
                                Some((v2, i2)) => v2 is Str && {
                                    match req_field(fs, i2, "version"@) {
                                        Some((v3, i3)) => v3 is Str && {
                                            i3 == fs.len()
                                        },
                                        None => false,
                                    }
                                },
                                None => false,
                            }
                        },
                        None => false,
                    }
                },
                None => false,
            }
        }
    }

    open spec fn spec_typename() -> Seq<char> {
        "AppInfo"@
    }

    proof fn lemma_encode_accepted(&self) {
    }

    fn typename() -> (r: &'static str) {
        "AppInfo"
    }

    fn to_bridge(&self) -> (r: Value) {
        let mut b = ObjBuilder::new();
        b.put("name", Value::Str(self.name.clone()));
        b.put("id", Value::Str(self.id.clone()));
        b.put("build", Value::Str(self.build.clone()));
        b.put("version", Value::Str(self.version.clone()));
        proof {
            assert(self.spec_encode() == ValueView::Obj(b@));
        }
        b.finish()
    }

    fn from_bridge(v: &Value) -> (r: Option<Self>) {
        let mut rd = match ObjReader::start(v) {
            Some(rd) => rd,
            None => {
                return None;
            },
        };
        let f_name: String = match rd.req("name") {
            Some(vv) => match vv {
                Value::Str(s) => s.clone(),
                _ => {
                    return None;
                },
            },
            None => {
                return None;
            },
        };
        let f_id: String = match rd.req("id") {
            Some(vv) => match vv {
                Value::Str(s) => s.clone(),
                _ => {
                    return None;
                },
            },
            None => {
                return None;
            },
        };
        let f_build: String = match rd.req("build") {
            Some(vv) => match vv {
                Value::Str(s) => s.clone(),
                _ => {
                    return None;
                },
            },
            None => {
                return None;
            },
        };
        let f_version: String = match rd.req("version") {
            Some(vv) => match vv {
                Value::Str(s) => s.clone(),
                _ => {
                    return None;
                },
            },
            None => {
                return None;
            },
        };
        if !rd.done() {
            return None;
        }
        let x = AppInfo { name: f_name, id: f_id, build: f_build, version: f_version };
        proof {
            assert(x.spec_encode() == v@);
            x.lemma_encode_accepted();
        }
        Some(x)
    }
}
impl BridgeDto for URLOpenListenerEvent {
    open spec fn spec_encode(self) -> ValueView {
        let fs = Seq::<(Seq<char>, ValueView)>::empty();
        let fs = fs.push(("url"@, ValueView::Str(self.url@)));
        let fs = if self.ios_source_application is Some { fs.push(("iosSourceApplication"@, ValueView::Str((self.ios_source_application->0)@))) } else { fs };
        let fs = if self.ios_open_in_place is Some { fs.push(("iosOpenInPlace"@, ValueView::Bool((self.ios_open_in_place->0)))) } else { fs };
        ValueView::Obj(fs)
    }

    open spec fn spec_accepts(m: ValueView) -> bool {
        &&& m matches ValueView::Obj(fs)
        &&& {
            match req_field(fs, 0, "url"@) {
                Some((v0, i0)) => v0 is Str && {
                    let (o1, i1) = opt_field(fs, i0, "iosSourceApplication"@);
                    (match o1 { Some(w) => w is Str, None => true }) && {
                        let (o2, i2) = opt_field(fs, i1, "iosOpenInPlace"@);
                        (match o2 { Some(w) => w is Bool, None => true }) && {
                            i2 == fs.len()
                        }
                    }
                },
                None => false,
            }
        }
    }

    open spec fn spec_typename() -> Seq<char> {
        "URLOpenListenerEvent"@
    }

    proof fn lemma_encode_accepted(&self) {
        reveal_strlit("iosOpenInPlace");
        reveal_strlit("iosSourceApplication");
        assert(("iosSourceApplication"@) != ("iosOpenInPlace"@)) by {
            assert(("iosSourceApplication"@).len() == 20);
            assert(("iosOpenInPlace"@).len() == 14);
        }
    }

    fn typename() -> (r: &'static str) {
        "URLOpenListenerEvent"
    }

    fn to_bridge(&self) -> (r: Value) {
        let mut b = ObjBuilder::new();
        b.put("url", Value::Str(self.url.clone()));
        match &self.ios_source_application {
            Some(x) => {
                b.put("iosSourceApplication", Value::Str(x.clone()));
            },
            None => {},
        }
        match &self.ios_open_in_place {
            Some(x) => {
                b.put("iosOpenInPlace", Value::Bool(*x));
            },
            None => {},
        }
        proof {
            assert(self.spec_encode() == ValueView::Obj(b@));
        }
        b.finish()
    }

    fn from_bridge(v: &Value) -> (r: Option<Self>) {
        let mut rd = match ObjReader::start(v) {
            Some(rd) => rd,
            None => {
                return None;
            },
        };
        let f_url: String = match rd.req("url") {
            Some(vv) => match vv {
                Value::Str(s) => s.clone(),
                _ => {
                    return None;
                },
            },
            None => {
                return None;
            },
        };
        let f_ios_source_application: Option<String> = match rd.opt("iosSourceApplication") {
            Some(vv) => match vv {
                Value::Str(s) => Some(s.clone()),
                _ => {
                    return None;
                },
            },
            None => None,
        };
        let f_ios_open_in_place: Option<bool> = match rd.opt("iosOpenInPlace") {
            Some(vv) => match vv {
                Value::Bool(bb) => Some(*bb),
                _ => {
                    return None;
                },
            },
            None => None,
        };
        if !rd.done() {
            return None;
        }
        let x = URLOpenListenerEvent { url: f_url, ios_source_application: f_ios_source_application, ios_open_in_place: f_ios_open_in_place };
        proof {
            assert(x.spec_encode() == v@);
            x.lemma_encode_accepted();
        }
        Some(x)
    }
}
impl BridgeDto for AppState {
    open spec fn spec_encode(self) -> ValueView {
        let fs = Seq::<(Seq<char>, ValueView)>::empty();
        let fs = fs.push(("isActive"@, ValueView::Bool(self.is_active)));
        ValueView::Obj(fs)
    }

    open spec fn spec_accepts(m: ValueView) -> bool {
        &&& m matches ValueView::Obj(fs)
        &&& {
            match req_field(fs, 0, "isActive"@) {
                Some((v0, i0)) => v0 is Bool && {
                    i0 == fs.len()
                },
                None => false,
            }
        }
    }

    open spec fn spec_typename() -> Seq<char> {
        "AppState"@
    }

    proof fn lemma_encode_accepted(&self) {
    }

    fn typename() -> (r: &'static str) {
        "AppState"
    }

    fn to_bridge(&self) -> (r: Value) {
        let mut b = ObjBuilder::new();
        b.put("isActive", Value::Bool(self.is_active));
        proof {
            assert(self.spec_encode() == ValueView::Obj(b@));
        }
        b.finish()
    }

    fn from_bridge(v: &Value) -> (r: Option<Self>) {
        let mut rd = match ObjReader::start(v) {
            Some(rd) => rd,
            None => {
                return None;
            },
        };
        let f_is_active: bool = match rd.req("isActive") {
            Some(vv) => match vv {
                Value::Bool(bb) => *bb,
                _ => {
                    return None;
                },
            },
            None => {
                return None;
            },
        };
        if !rd.done() {
            return None;
        }
        let x = AppState { is_active: f_is_active };
        proof {
            assert(x.spec_encode() == v@);
            x.lemma_encode_accepted();
        }
        Some(x)
    }
}
impl BridgeDto for AppLaunchUrl {
    open spec fn spec_encode(self) -> ValueView {
        let fs = Seq::<(Seq<char>, ValueView)>::empty();
        let fs = fs.push(("url"@, ValueView::Str(self.url@)));
        ValueView::Obj(fs)
    }

    open spec fn spec_accepts(m: ValueView) -> bool {
        &&& m matches ValueView::Obj(fs)
        &&& {
            match req_field(fs, 0, "url"@) {
                Some((v0, i0)) => v0 is Str && {
                    i0 == fs.len()
                },
                None => false,
            }
        }
    }

    open spec fn spec_typename() -> Seq<char> {
        "AppLaunchUrl"@
    }

    proof fn lemma_encode_accepted(&self) {
    }

    fn typename() -> (r: &'static str) {
        "AppLaunchUrl"
    }

    fn to_bridge(&self) -> (r: Value) {
        let mut b = ObjBuilder::new();
        b.put("url", Value::Str(self.url.clone()));
        proof {
            assert(self.spec_encode() == ValueView::Obj(b@));
        }
        b.finish()
    }

    fn from_bridge(v: &Value) -> (r: Option<Self>) {
        let mut rd = match ObjReader::start(v) {
            Some(rd) => rd,
            None => {
                return None;
            },
        };
        let f_url: String = match rd.req("url") {
            Some(vv) => match vv {
                Value::Str(s) => s.clone(),
                _ => {
                    return None;
                },
            },
            None => {
                return None;
            },
        };
        if !rd.done() {
            return None;
        }
        let x = AppLaunchUrl { url: f_url };
        proof {
            assert(x.spec_encode() == v@);
            x.lemma_encode_accepted();
        }
        Some(x)
    }
}
impl BridgeDto for RestoredListenerEvent {
    open spec fn spec_encode(self) -> ValueView {
        let fs = Seq::<(Seq<char>, ValueView)>::empty();
        let fs = fs.push(("pluginId"@, ValueView::Str(self.plugin_id@)));
        let fs = fs.push(("methodName"@, ValueView::Str(self.method_name@)));
        let fs = fs.push(("data"@, ValueView::Str(self.data@)));
        let fs = fs.push(("success"@, ValueView::Bool(self.success)));
        let fs = if self.error is Some { fs.push(("error"@, encode_of::<InnerError>((self.error->0)))) } else { fs };
        ValueView::Obj(fs)
    }

    open spec fn spec_accepts(m: ValueView) -> bool {
        &&& m matches ValueView::Obj(fs)
        &&& {
            match req_field(fs, 0, "pluginId"@) {
                Some((v0, i0)) => v0 is Str && {
                    match req_field(fs, i0, "methodName"@) {
                        Some((v1, i1)) => v1 is Str && {
                            match req_field(fs, i1, "data"@) {
                                Some((v2, i2)) => v2 is Str && {
                                    match req_field(fs, i2, "success"@) {
                                        Some((v3, i3)) => v3 is Bool && {
                                            let (o4, i4) = opt_field(fs, i3, "error"@);
                                            (match o4 { Some(w) => accepts_of::<InnerError>(w), None => true }) && {
                                                i4 == fs.len()
                                            }
                                        },
                                        None => false,
                                    }
                                },
                                None => false,
                            }
                        },
                        None => false,
                    }
                },
                None => false,
            }
        }
    }

    open spec fn spec_typename() -> Seq<char> {
        "RestoredListenerEvent"@
    }

    proof fn lemma_encode_accepted(&self) {
        if self.error is Some {
            lemma_encode_of_accepted::<InnerError>(self.error->0);
        }
    }

    fn typename() -> (r: &'static str) {
        "RestoredListenerEvent"
    }

    fn to_bridge(&self) -> (r: Value) {
        let mut b = ObjBuilder::new();
        b.put("pluginId", Value::Str(self.plugin_id.clone()));
        b.put("methodName", Value::Str(self.method_name.clone()));
        b.put("data", Value::Str(self.data.clone()));
        b.put("success", Value::Bool(self.success));
        match &self.error {
            Some(x) => {
                proof {
                    lemma_encode_of::<InnerError>(*x);
                }
                b.put("error", x.to_bridge());
            },
            None => {},
        }
        proof {
            assert(self.spec_encode() == ValueView::Obj(b@));
        }
        b.finish()
    }

    fn from_bridge(v: &Value) -> (r: Option<Self>) {
        let mut rd = match ObjReader::start(v) {
            Some(rd) => rd,
            None => {
                return None;
            },
        };
        let f_plugin_id: String = match rd.req("pluginId") {
            Some(vv) => match vv {
                Value::Str(s) => s.clone(),
                _ => {
                    return None;
                },
            },
            None => {
                return None;
            },
        };
        let f_method_name: String = match rd.req("methodName") {
            Some(vv) => match vv {
                Value::Str(s) => s.clone(),
                _ => {
                    return None;
                },
            },
            None => {
                return None;
            },
        };
        let f_data: String = match rd.req("data") {
            Some(vv) => match vv {
                Value::Str(s) => s.clone(),
                _ => {
                    return None;
                },
            },
            None => {
                return None;
            },
        };
        let f_success: bool = match rd.req("success") {
            Some(vv) => match vv {
                Value::Bool(bb) => *bb,
                _ => {
                    return None;
                },
            },
            None => {
                return None;
            },
        };
        let f_error: Option<InnerError> = match rd.opt("error") {
            Some(vv) => match InnerError::from_bridge(vv) {
                Some(y) => {
                    proof {
                        lemma_accepts_of::<InnerError>(vv@);
                        lemma_encode_of::<InnerError>(y);
                    }
                    Some(y)
                },
                None => {
                    proof {
                        lemma_accepts_of::<InnerError>(vv@);
                    }
                    return None;
                },
            },
            None => None,
        };
        if !rd.done() {
            return None;
        }
        let x = RestoredListenerEvent { plugin_id: f_plugin_id, method_name: f_method_name, data: f_data, success: f_success, error: f_error };
        proof {
            assert(x.spec_encode() == v@);
            x.lemma_encode_accepted();
        }
        Some(x)
    }
}
impl BridgeDto for BackButtonListenerEvent {
    open spec fn spec_encode(self) -> ValueView {
        let fs = Seq::<(Seq<char>, ValueView)>::empty();
        let fs = fs.push(("canGoBack"@, ValueView::Bool(self.can_go_back)));
        ValueView::Obj(fs)
    }

    open spec fn spec_accepts(m: ValueView) -> bool {
        &&& m matches ValueView::Obj(fs)
        &&& {
            match req_field(fs, 0, "canGoBack"@) {
                Some((v0, i0)) => v0 is Bool && {
                    i0 == fs.len()
                },
                None => false,
            }
        }
    }

    open spec fn spec_typename() -> Seq<char> {
        "BackButtonListenerEvent"@
    }

    proof fn lemma_encode_accepted(&self) {
    }

    fn typename() -> (r: &'static str) {
        "BackButtonListenerEvent"
    }

    fn to_bridge(&self) -> (r: Value) {
        let mut b = ObjBuilder::new();
        b.put("canGoBack", Value::Bool(self.can_go_back));
        proof {
            assert(self.spec_encode() == ValueView::Obj(b@));
        }
        b.finish()
    }

    fn from_bridge(v: &Value) -> (r: Option<Self>) {
        let mut rd = match ObjReader::start(v) {
            Some(rd) => rd,
            None => {
                return None;
            },
        };
        let f_can_go_back: bool = match rd.req("canGoBack") {
            Some(vv) => match vv {
                Value::Bool(bb) => *bb,
                _ => {
                    return None;
                },
            },
            None => {
                return None;
            },
        };
        if !rd.done() {
            return None;
        }
        let x = BackButtonListenerEvent { can_go_back: f_can_go_back };
        proof {
            assert(x.spec_encode() == v@);
            x.lemma_encode_accepted();
        }
        Some(x)
    }
}

/// The app state change event stream.
pub struct AppStateChange;

impl crate::listener::ListenerEvent for AppStateChange {
    type Payload = AppState;

    open spec fn spec_name() -> Seq<char> {
        "appStateChange"@
    }

    fn event_name() -> (r: String) {
        "appStateChange".to_owned()
    }
}

/// The app-open-by-URL event stream.
pub struct AppUrlOpen;

impl crate::listener::ListenerEvent for AppUrlOpen {
    type Payload = URLOpenListenerEvent;

    open spec fn spec_name() -> Seq<char> {
        "appUrlOpen"@
    }

    fn event_name() -> (r: String) {
        "appUrlOpen".to_owned()
    }
}

/// The restored plugin call result event stream.
pub struct AppRestoredResult;

impl crate::listener::ListenerEvent for AppRestoredResult {
    type Payload = RestoredListenerEvent;

    open spec fn spec_name() -> Seq<char> {
        "appRestoredResult"@
    }

    fn event_name() -> (r: String) {
        "appRestoredResult".to_owned()
    }
}

/// The hardware back-button event stream.
pub struct BackButton;

impl crate::listener::ListenerEvent for BackButton {
    type Payload = BackButtonListenerEvent;

    open spec fn spec_name() -> Seq<char> {
        "backButton"@
    }

    fn event_name() -> (r: String) {
        "backButton".to_owned()
    }
}

} // verus!
