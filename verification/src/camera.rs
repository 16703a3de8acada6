//! The camera plugin's request and response types.

use vstd::prelude::*;
#[allow(unused_imports)]
use crate::codec::{BridgeDto, ObjBuilder, ObjReader, accepts_of, decode_seq, decode_strs,
    encode_of, encode_seq, encode_strs, lemma_accepts_of, lemma_encode_of,
    lemma_encode_of_accepted, lemma_seq_encode_accepted, lemma_strs_encode_accepted, opt_field,
    req_field, spec_accepts_seq, spec_accepts_strs, spec_encode_seq, spec_encode_strs};
#[allow(unused_imports)]
use crate::value::{Value, ValueView, field_views, lemma_field_views, str_eq};

verus! {

/// The camera plugin: take photos and pick images from the gallery.
pub struct Camera;

/// A photo returned by the camera or gallery.
#[derive(Clone, Debug, PartialEq)]
pub struct Photo {
    pub base64_string: Option<String>,
    pub data_url: Option<String>,
    pub path: Option<String>,
    pub web_path: Option<String>,
    pub exif: Option<ExifData>,
    pub format: String,
    pub saved: Option<bool>,
}
/// Exif key/value data of an image: an open set of string entries.
#[derive(Clone, Debug, PartialEq, Default)]
pub struct ExifData {
    pub data: Vec<(String, String)>,
}

impl ExifData {
    /// Each key names one entry.
    pub open spec fn wf(&self) -> bool {
        forall|i: int, j: int| 0 <= i < j < self.data@.len()
            ==> (#[trigger] self.data@[i]).0@ != (#[trigger] self.data@[j]).0@
    }
}

/// Options for taking a single photo.
#[derive(Clone, Debug, PartialEq)]
pub struct ImageOptions {
    pub quality: u8,
    pub allow_editing: bool,
    pub result_type: CameraResultType,
    pub save_to_gallery: bool,
    pub width: u32,
    pub height: u32,
    pub correct_orientation: bool,
    pub source: CameraSource,
    pub direction: Option<CameraDirection>,
    pub presentation_style: Option<PresentationStyle>,
    pub web_use_input: Option<bool>,
    pub prompt_label_header: String,
    pub prompt_label_cancel: Option<String>,
    pub prompt_label_photo: Option<String>,
    pub prompt_label_picture: Option<String>,
}
/// The photos picked from the gallery.
#[derive(Clone, Debug, PartialEq)]
pub struct GalleryPhotos {
    pub photos: Vec<GalleryPhoto>,
}
/// One photo picked from the gallery.
#[derive(Clone, Debug, PartialEq)]
pub struct GalleryPhoto {
    pub path: String,
    pub web_path: Option<String>,
    pub exif: Option<ExifData>,
    pub format: String,
}
/// Options for picking images from the gallery.
#[derive(Clone, Debug, PartialEq)]
pub struct GalleryImageOptions {
    pub quality: u8,
    pub width: u32,
    pub height: u32,
    pub correct_orientation: bool,
    pub presentation_style: Option<PresentationStyle>,
    pub limit: Option<u32>,
}
/// The camera and photo album permissions.
#[derive(Clone, Debug, PartialEq)]
pub struct PermissionStatus {
    pub camera: CameraPermissionState,
    pub photos: CameraPermissionState,
}
/// The permissions to request.
#[derive(Clone, Debug, PartialEq)]
pub struct CameraPluginPermissions {
    pub permissions: Vec<CameraPermissionType>,
}
/// The state of one camera-related permission.
#[derive(Clone, Copy, Debug, PartialEq, Eq, Structural)]
pub enum CameraPermissionState {
    Prompt,
    PromptWithRationale,
    Granted,
    Denied,
    Limited,
}
/// The state of a permission.
#[derive(Clone, Copy, Debug, PartialEq, Eq, Structural)]
pub enum PermissionState {
    Prompt,
    PromptWithRationale,
    Granted,
    Denied,
}
/// How the camera is presented, on iOS.
#[derive(Clone, Copy, Debug, PartialEq, Eq, Structural)]
pub enum PresentationStyle {
    Fullscreen,
    Popover,
}
/// A camera-related permission.
#[derive(Clone, Copy, Debug, PartialEq, Eq, Structural)]
pub enum CameraPermissionType {
    Camera,
    Photos,
}
/// How image data should be returned.
#[derive(Clone, Copy, Debug, PartialEq, Eq, Structural)]
pub enum CameraResultType {
    Uri,
    Base64,
    DataUrl,
}
/// Where to get the photo from.
#[derive(Clone, Copy, Debug, PartialEq, Eq, Structural)]
pub enum CameraSource {
    Prompt,
    Camera,
    Photos,
}
/// Which camera to use.
#[derive(Clone, Copy, Debug, PartialEq, Eq, Structural)]
pub enum CameraDirection {
    Rear,
    Front,
}
impl BridgeDto for CameraPermissionState {
    open spec fn spec_encode(self) -> ValueView {
        match self {
            CameraPermissionState::Prompt => ValueView::Str("prompt"@),
            CameraPermissionState::PromptWithRationale => ValueView::Str("prompt-with-rationale"@),
            CameraPermissionState::Granted => ValueView::Str("granted"@),
            CameraPermissionState::Denied => ValueView::Str("denied"@),
            CameraPermissionState::Limited => ValueView::Str("limited"@),
        }
    }

    open spec fn spec_accepts(m: ValueView) -> bool {
        m matches ValueView::Str(s) && (s == "prompt"@ || s == "prompt-with-rationale"@ || s == "granted"@ || s == "denied"@ || s == "limited"@)
    }

    open spec fn spec_typename() -> Seq<char> {
        "CameraPermissionState"@
    }

    proof fn lemma_encode_accepted(&self) {
    }

    fn typename() -> (r: &'static str) {
        "CameraPermissionState"
    }

    fn to_bridge(&self) -> (r: Value) {
        match self {
            CameraPermissionState::Prompt => Value::Str("prompt".to_owned()),
            CameraPermissionState::PromptWithRationale => Value::Str("prompt-with-rationale".to_owned()),
            CameraPermissionState::Granted => Value::Str("granted".to_owned()),
            CameraPermissionState::Denied => Value::Str("denied".to_owned()),
            CameraPermissionState::Limited => Value::Str("limited".to_owned()),
        }
    }

    fn from_bridge(v: &Value) -> (r: Option<Self>) {
        match v {
            Value::Str(s) => {
                if str_eq(s.as_str(), "prompt") {
                    Some(CameraPermissionState::Prompt)
                } else if str_eq(s.as_str(), "prompt-with-rationale") {
                    Some(CameraPermissionState::PromptWithRationale)
                } else if str_eq(s.as_str(), "granted") {
                    Some(CameraPermissionState::Granted)
                } else if str_eq(s.as_str(), "denied") {
                    Some(CameraPermissionState::Denied)
                } else if str_eq(s.as_str(), "limited") {
                    Some(CameraPermissionState::Limited)
                } else {
                    None
                }
            },
            _ => None,
        }
    }
}
impl BridgeDto for PermissionState {
    open spec fn spec_encode(self) -> ValueView {
        match self {
            PermissionState::Prompt => ValueView::Str("prompt"@),
            PermissionState::PromptWithRationale => ValueView::Str("prompt-with-rationale"@),
            PermissionState::Granted => ValueView::Str("granted"@),
            PermissionState::Denied => ValueView::Str("denied"@),
        }
    }

    open spec fn spec_accepts(m: ValueView) -> bool {
        m matches ValueView::Str(s) && (s == "prompt"@ || s == "prompt-with-rationale"@ || s == "granted"@ || s == "denied"@)
    }

    open spec fn spec_typename() -> Seq<char> {
        "PermissionState"@
    }

    proof fn lemma_encode_accepted(&self) {
    }

    fn typename() -> (r: &'static str) {
        "PermissionState"
    }

    fn to_bridge(&self) -> (r: Value) {
        match self {
            PermissionState::Prompt => Value::Str("prompt".to_owned()),
            PermissionState::PromptWithRationale => Value::Str("prompt-with-rationale".to_owned()),
            PermissionState::Granted => Value::Str("granted".to_owned()),
            PermissionState::Denied => Value::Str("denied".to_owned()),
        }
    }

    fn from_bridge(v: &Value) -> (r: Option<Self>) {
        match v {
            Value::Str(s) => {
                if str_eq(s.as_str(), "prompt") {
                    Some(PermissionState::Prompt)
                } else if str_eq(s.as_str(), "prompt-with-rationale") {
                    Some(PermissionState::PromptWithRationale)
                } else if str_eq(s.as_str(), "granted") {
                    Some(PermissionState::Granted)
                } else if str_eq(s.as_str(), "denied") {
                    Some(PermissionState::Denied)
                } else {
                    None
                }
            },
            _ => None,
        }
    }
}
impl BridgeDto for PresentationStyle {
    open spec fn spec_encode(self) -> ValueView {
        match self {
            PresentationStyle::Fullscreen => ValueView::Str("fullscreen"@),
            PresentationStyle::Popover => ValueView::Str("popover"@),
        }
    }

    open spec fn spec_accepts(m: ValueView) -> bool {
        m matches ValueView::Str(s) && (s == "fullscreen"@ || s == "popover"@)
    }

    open spec fn spec_typename() -> Seq<char> {
        "PresentationStyle"@
    }

    proof fn lemma_encode_accepted(&self) {
    }

    fn typename() -> (r: &'static str) {
        "PresentationStyle"
    }

    fn to_bridge(&self) -> (r: Value) {
        match self {
            PresentationStyle::Fullscreen => Value::Str("fullscreen".to_owned()),
            PresentationStyle::Popover => Value::Str("popover".to_owned()),
        }
    }

    fn from_bridge(v: &Value) -> (r: Option<Self>) {
        match v {
            Value::Str(s) => {
                if str_eq(s.as_str(), "fullscreen") {
                    Some(PresentationStyle::Fullscreen)
                } else if str_eq(s.as_str(), "popover") {
                    Some(PresentationStyle::Popover)
                } else {
                    None
                }
            },
            _ => None,
        }
    }
}
impl BridgeDto for CameraPermissionType {
    open spec fn spec_encode(self) -> ValueView {
        match self {
            CameraPermissionType::Camera => ValueView::Str("camera"@),
            CameraPermissionType::Photos => ValueView::Str("photos"@),
        }
    }

    open spec fn spec_accepts(m: ValueView) -> bool {
        m matches ValueView::Str(s) && (s == "camera"@ || s == "photos"@)
    }

    open spec fn spec_typename() -> Seq<char> {
        "CameraPermissionType"@
    }

    proof fn lemma_encode_accepted(&self) {
    }

    fn typename() -> (r: &'static str) {
        "CameraPermissionType"
    }

    fn to_bridge(&self) -> (r: Value) {
        match self {
            CameraPermissionType::Camera => Value::Str("camera".to_owned()),
            CameraPermissionType::Photos => Value::Str("photos".to_owned()),
        }
    }

    fn from_bridge(v: &Value) -> (r: Option<Self>) {
        match v {
            Value::Str(s) => {
                if str_eq(s.as_str(), "camera") {
                    Some(CameraPermissionType::Camera)
                } else if str_eq(s.as_str(), "photos") {
                    Some(CameraPermissionType::Photos)
                } else {
                    None
                }
            },
            _ => None,
        }
    }
}
impl BridgeDto for CameraResultType {
    open spec fn spec_encode(self) -> ValueView {
        match self {
            CameraResultType::Uri => ValueView::Str("uri"@),
            CameraResultType::Base64 => ValueView::Str("base64"@),
            CameraResultType::DataUrl => ValueView::Str("dataUrl"@),
        }
    }

    open spec fn spec_accepts(m: ValueView) -> bool {
        m matches ValueView::Str(s) && (s == "uri"@ || s == "base64"@ || s == "dataUrl"@)
    }

    open spec fn spec_typename() -> Seq<char> {
        "CameraResultType"@
    }

    proof fn lemma_encode_accepted(&self) {
    }

    fn typename() -> (r: &'static str) {
        "CameraResultType"
    }

    fn to_bridge(&self) -> (r: Value) {
        match self {
            CameraResultType::Uri => Value::Str("uri".to_owned()),
            CameraResultType::Base64 => Value::Str("base64".to_owned()),
            CameraResultType::DataUrl => Value::Str("dataUrl".to_owned()),
        }
    }

    fn from_bridge(v: &Value) -> (r: Option<Self>) {
        match v {
            Value::Str(s) => {
                if str_eq(s.as_str(), "uri") {
                    Some(CameraResultType::Uri)
                } else if str_eq(s.as_str(), "base64") {
                    Some(CameraResultType::Base64)
                } else if str_eq(s.as_str(), "dataUrl") {
                    Some(CameraResultType::DataUrl)
                } else {
                    None
                }
            },
            _ => None,
        }
    }
}
impl BridgeDto for CameraSource {
    open spec fn spec_encode(self) -> ValueView {
        match self {
            CameraSource::Prompt => ValueView::Str("PROMPT"@),
            CameraSource::Camera => ValueView::Str("CAMERA"@),
            CameraSource::Photos => ValueView::Str("PHOTOS"@),
        }
    }

    open spec fn spec_accepts(m: ValueView) -> bool {
        m matches ValueView::Str(s) && (s == "PROMPT"@ || s == "CAMERA"@ || s == "PHOTOS"@)
    }

    open spec fn spec_typename() -> Seq<char> {
        "CameraSource"@
    }

    proof fn lemma_encode_accepted(&self) {
    }

    fn typename() -> (r: &'static str) {
        "CameraSource"
    }

    fn to_bridge(&self) -> (r: Value) {
        match self {
            CameraSource::Prompt => Value::Str("PROMPT".to_owned()),
            CameraSource::Camera => Value::Str("CAMERA".to_owned()),
            CameraSource::Photos => Value::Str("PHOTOS".to_owned()),
        }
    }

    fn from_bridge(v: &Value) -> (r: Option<Self>) {
        match v {
            Value::Str(s) => {
                if str_eq(s.as_str(), "PROMPT") {
                    Some(CameraSource::Prompt)
                } else if str_eq(s.as_str(), "CAMERA") {
                    Some(CameraSource::Camera)
                } else if str_eq(s.as_str(), "PHOTOS") {
                    Some(CameraSource::Photos)
                } else {
                    None
                }
            },
            _ => None,
        }
    }
}
impl BridgeDto for CameraDirection {
    open spec fn spec_encode(self) -> ValueView {
        match self {
            CameraDirection::Rear => ValueView::Str("REAR"@),
            CameraDirection::Front => ValueView::Str("FRONT"@),
        }
    }

    open spec fn spec_accepts(m: ValueView) -> bool {
        m matches ValueView::Str(s) && (s == "REAR"@ || s == "FRONT"@)
    }

    open spec fn spec_typename() -> Seq<char> {
        "CameraDirection"@
    }

    proof fn lemma_encode_accepted(&self) {
    }

    fn typename() -> (r: &'static str) {
        "CameraDirection"
    }

    fn to_bridge(&self) -> (r: Value) {
        match self {
            CameraDirection::Rear => Value::Str("REAR".to_owned()),
            CameraDirection::Front => Value::Str("FRONT".to_owned()),
        }
    }

    fn from_bridge(v: &Value) -> (r: Option<Self>) {
        match v {
            Value::Str(s) => {
                if str_eq(s.as_str(), "REAR") {
                    Some(CameraDirection::Rear)
                } else if str_eq(s.as_str(), "FRONT") {
                    Some(CameraDirection::Front)
                } else {
                    None
                }
            },
            _ => None,
        }
    }
}
impl BridgeDto for ExifData {
    open spec fn spec_encode(self) -> ValueView {
        ValueView::Obj(
            Seq::new(
                self.data@.len(),
                |i: int| (self.data@[i].0@, ValueView::Str(self.data@[i].1@)),
            ),
        )
    }

    open spec fn spec_accepts(m: ValueView) -> bool {
        m matches ValueView::Obj(fs) && forall|i: int|
            0 <= i < fs.len() ==> (#[trigger] fs[i]).1 is Str
    }

    open spec fn spec_typename() -> Seq<char> {
        "ExifData"@
    }

    proof fn lemma_encode_accepted(&self) {
        let vs = Seq::new(
            self.data@.len(),
            |i: int| (self.data@[i].0@, ValueView::Str(self.data@[i].1@)),
        );
        assert forall|i: int| 0 <= i < vs.len() implies (#[trigger] vs[i]).1 is Str by {
        }
    }

    fn typename() -> (r: &'static str) {
        "ExifData"
    }

    fn to_bridge(&self) -> (r: Value) {
        let mut b = ObjBuilder::new();
        let mut i: usize = 0;
        while i < self.data.len()
            invariant
                i <= self.data.len(),
                b@.len() == i as int,
                forall|k: int| 0 <= k < i as int
                    ==> #[trigger] b@[k] == (self.data@[k].0@, ValueView::Str(self.data@[k].1@)),
            decreases self.data.len() - i,
        {
            b.put(self.data[i].0.as_str(), Value::Str(self.data[i].1.clone()));
            i += 1;
        }
        proof {
            assert(b@ =~= Seq::new(
                self.data@.len(),
                |k: int| (self.data@[k].0@, ValueView::Str(self.data@[k].1@)),
            ));
        }
        b.finish()
    }

    fn from_bridge(v: &Value) -> (r: Option<Self>) {
        match v {
            Value::Obj(fields) => {
                proof {
                    lemma_field_views(fields@);
                }
                let mut out: Vec<(String, String)> = Vec::new();
                let mut i: usize = 0;
                while i < fields.len()
                    invariant
                        i <= fields.len(),
                        out@.len() == i as int,
                        forall|k: int| 0 <= k < i as int
                            ==> (#[trigger] out@[k]).0@ == fields@[k].0@
                                && ValueView::Str(out@[k].1@) == fields@[k].1@,
                        field_views(fields@).len() == fields@.len(),
                        forall|k: int| 0 <= k < fields@.len()
                            ==> field_views(fields@)[k]
                                == ((#[trigger] fields@[k]).0@, fields@[k].1@),
                        v@ == ValueView::Obj(field_views(fields@)),
                    decreases fields.len() - i,
                {
                    match &fields[i].1 {
                        Value::Str(s) => {
                            let name = fields[i].0.clone();
                            let val = s.clone();
                            out.push((name, val));
                        },
                        _ => {
                            proof {
                                assert(!(field_views(fields@)[i as int].1 is Str));
                                assert(!((v@->Obj_0)[i as int].1 is Str));
                            }
                            return None;
                        },
                    }
                    i += 1;
                }
                let x = ExifData { data: out };
                proof {
                    assert(Seq::new(
                        x.data@.len(),
                        |k: int| (x.data@[k].0@, ValueView::Str(x.data@[k].1@)),
                    ) =~= field_views(fields@));
                }
                Some(x)
            },
            _ => None,
        }
    }
}

impl BridgeDto for Photo {
    open spec fn spec_encode(self) -> ValueView {
        let fs = Seq::<(Seq<char>, ValueView)>::empty();
        let fs = if self.base64_string is Some { fs.push(("base64String"@, ValueView::Str((self.base64_string->0)@))) } else { fs };
        let fs = if self.data_url is Some { fs.push(("dataUrl"@, ValueView::Str((self.data_url->0)@))) } else { fs };
        let fs = if self.path is Some { fs.push(("path"@, ValueView::Str((self.path->0)@))) } else { fs };
        let fs = if self.web_path is Some { fs.push(("webPath"@, ValueView::Str((self.web_path->0)@))) } else { fs };
        let fs = if self.exif is Some { fs.push(("exif"@, encode_of::<ExifData>((self.exif->0)))) } else { fs };
        let fs = fs.push(("format"@, ValueView::Str(self.format@)));
        let fs = if self.saved is Some { fs.push(("saved"@, ValueView::Bool((self.saved->0)))) } else { fs };
        ValueView::Obj(fs)
    }

    open spec fn spec_accepts(m: ValueView) -> bool {
        &&& m matches ValueView::Obj(fs)
        &&& {
            let (o0, i0) = opt_field(fs, 0, "base64String"@);
            (match o0 { Some(w) => w is Str, None => true }) && {
                let (o1, i1) = opt_field(fs, i0, "dataUrl"@);
                (match o1 { Some(w) => w is Str, None => true }) && {
                    let (o2, i2) = opt_field(fs, i1, "path"@);
                    (match o2 { Some(w) => w is Str, None => true }) && {
                        let (o3, i3) = opt_field(fs, i2, "webPath"@);
                        (match o3 { Some(w) => w is Str, None => true }) && {
                            let (o4, i4) = opt_field(fs, i3, "exif"@);
                            (match o4 { Some(w) => accepts_of::<ExifData>(w), None => true }) && {
                                match req_field(fs, i4, "format"@) {
                                    Some((v5, i5)) => v5 is Str && {
                                        let (o6, i6) = opt_field(fs, i5, "saved"@);
                                        (match o6 { Some(w) => w is Bool, None => true }) && {
                                            i6 == fs.len()
                                        }
                                    },
                                    None => false,
                                }
                            }
                        }
                    }
                }
            }
        }
    }

    open spec fn spec_typename() -> Seq<char> {
        "Photo"@
    }

    proof fn lemma_encode_accepted(&self) {
        reveal_strlit("base64String");
        reveal_strlit("dataUrl");
        reveal_strlit("exif");
        reveal_strlit("format");
        reveal_strlit("path");
        reveal_strlit("saved");
        reveal_strlit("webPath");
        assert(("base64String"@) != ("exif"@)) by {
            assert(("base64String"@).len() == 12);
            assert(("exif"@).len() == 4);
        }
        assert(("base64String"@) != ("format"@)) by {
            assert(("base64String"@).len() == 12);
            assert(("format"@).len() == 6);
        }
        assert(("base64String"@) != ("saved"@)) by {
            assert(("base64String"@).len() == 12);
            assert(("saved"@).len() == 5);
        }
        assert(("dataUrl"@) != ("exif"@)) by {
            assert(("dataUrl"@).len() == 7);
            assert(("exif"@).len() == 4);
        }
        assert(("dataUrl"@) != ("format"@)) by {
            assert(("dataUrl"@).len() == 7);
            assert(("format"@).len() == 6);
        }
        assert(("dataUrl"@) != ("saved"@)) by {
            assert(("dataUrl"@).len() == 7);
            assert(("saved"@).len() == 5);
        }
        assert(("path"@) != ("exif"@)) by {
            if ("path"@) == ("exif"@) {
                assert(("path"@)[0] == ("exif"@)[0]);
            }
        }
        assert(("path"@) != ("format"@)) by {
            assert(("path"@).len() == 4);
            assert(("format"@).len() == 6);
        }
        assert(("path"@) != ("saved"@)) by {
            assert(("path"@).len() == 4);
            assert(("saved"@).len() == 5);
        }
        assert(("webPath"@) != ("exif"@)) by {
            assert(("webPath"@).len() == 7);
            assert(("exif"@).len() == 4);
        }
        assert(("webPath"@) != ("format"@)) by {
            assert(("webPath"@).len() == 7);
            assert(("format"@).len() == 6);
        }
        assert(("webPath"@) != ("saved"@)) by {
            assert(("webPath"@).len() == 7);
            assert(("saved"@).len() == 5);
        }
        assert(("exif"@) != ("format"@)) by {
            assert(("exif"@).len() == 4);
            assert(("format"@).len() == 6);
        }
        assert(("exif"@) != ("saved"@)) by {
            assert(("exif"@).len() == 4);
            assert(("saved"@).len() == 5);
        }
        if self.exif is Some {
            lemma_encode_of_accepted::<ExifData>(self.exif->0);
        }
    }

    fn typename() -> (r: &'static str) {
        "Photo"
    }

    fn to_bridge(&self) -> (r: Value) {
        let mut b = ObjBuilder::new();
        match &self.base64_string {
            Some(x) => {
                b.put("base64String", Value::Str(x.clone()));
            },
            None => {},
        }
        match &self.data_url {
            Some(x) => {
                b.put("dataUrl", Value::Str(x.clone()));
            },
            None => {},
        }
        match &self.path {
            Some(x) => {
                b.put("path", Value::Str(x.clone()));
            },
            None => {},
        }
        match &self.web_path {
            Some(x) => {
                b.put("webPath", Value::Str(x.clone()));
            },
            None => {},
        }
        match &self.exif {
            Some(x) => {
                proof {
                    lemma_encode_of::<ExifData>(*x);
                }
                b.put("exif", x.to_bridge());
            },
            None => {},
        }
        b.put("format", Value::Str(self.format.clone()));
        match &self.saved {
            Some(x) => {
                b.put("saved", Value::Bool(*x));
            },
            None => {},
        }
        proof {
            assert(self.spec_encode() == ValueView::Obj(b@));
        }
        b.finish()
    }

    fn from_bridge(v: &Value) -> (r: Option<Self>) {
        let mut rd = match ObjReader::start(v) {
            Some(rd) => rd,
            None => {
                return None;
            },
        };
        let f_base64_string: Option<String> = match rd.opt("base64String") {
            Some(vv) => match vv {
                Value::Str(s) => Some(s.clone()),
                _ => {
                    return None;
                },
            },
            None => None,
        };
        let f_data_url: Option<String> = match rd.opt("dataUrl") {
            Some(vv) => match vv {
                Value::Str(s) => Some(s.clone()),
                _ => {
                    return None;
                },
            },
            None => None,
        };
        let f_path: Option<String> = match rd.opt("path") {
            Some(vv) => match vv {
                Value::Str(s) => Some(s.clone()),
                _ => {
                    return None;
                },
            },
            None => None,
        };
        let f_web_path: Option<String> = match rd.opt("webPath") {
            Some(vv) => match vv {
                Value::Str(s) => Some(s.clone()),
                _ => {
                    return None;
                },
            },
            None => None,
        };
        let f_exif: Option<ExifData> = match rd.opt("exif") {
            Some(vv) => match ExifData::from_bridge(vv) {
                Some(y) => {
                    proof {
                        lemma_accepts_of::<ExifData>(vv@);
                        lemma_encode_of::<ExifData>(y);
                    }
                    Some(y)
                },
                None => {
                    proof {
                        lemma_accepts_of::<ExifData>(vv@);
                    }
                    return None;
                },
            },
            None => None,
        };
        let f_format: String = match rd.req("format") {
            Some(vv) => match vv {
                Value::Str(s) => s.clone(),
                _ => {
                    return None;
                },
            },
            None => {
                return None;
            },
        };
        let f_saved: Option<bool> = match rd.opt("saved") {
            Some(vv) => match vv {
                Value::Bool(bb) => Some(*bb),
                _ => {
                    return None;
                },
            },
            None => None,
        };
        if !rd.done() {
            return None;
        }
        let x = Photo { base64_string: f_base64_string, data_url: f_data_url, path: f_path, web_path: f_web_path, exif: f_exif, format: f_format, saved: f_saved };
        proof {
            assert(x.spec_encode() == v@);
            x.lemma_encode_accepted();
        }
        Some(x)
    }
}
impl BridgeDto for GalleryPhoto {
    open spec fn spec_encode(self) -> ValueView {
        let fs = Seq::<(Seq<char>, ValueView)>::empty();
        let fs = fs.push(("path"@, ValueView::Str(self.path@)));
        let fs = if self.web_path is Some { fs.push(("webPath"@, ValueView::Str((self.web_path->0)@))) } else { fs };
        let fs = if self.exif is Some { fs.push(("exif"@, encode_of::<ExifData>((self.exif->0)))) } else { fs };
        let fs = fs.push(("format"@, ValueView::Str(self.format@)));
        ValueView::Obj(fs)
    }

    open spec fn spec_accepts(m: ValueView) -> bool {
        &&& m matches ValueView::Obj(fs)
        &&& {
            match req_field(fs, 0, "path"@) {
                Some((v0, i0)) => v0 is Str && {
                    let (o1, i1) = opt_field(fs, i0, "webPath"@);
                    (match o1 { Some(w) => w is Str, None => true }) && {
                        let (o2, i2) = opt_field(fs, i1, "exif"@);
                        (match o2 { Some(w) => accepts_of::<ExifData>(w), None => true }) && {
                            match req_field(fs, i2, "format"@) {
                                Some((v3, i3)) => v3 is Str && {
                                    i3 == fs.len()
                                },
                                None => false,
                            }
                        }
                    }
                },
                None => false,
            }
        }
    }

    open spec fn spec_typename() -> Seq<char> {
        "GalleryPhoto"@
    }

    proof fn lemma_encode_accepted(&self) {
        reveal_strlit("exif");
        reveal_strlit("format");
        reveal_strlit("webPath");
        assert(("webPath"@) != ("exif"@)) by {
            assert(("webPath"@).len() == 7);
            assert(("exif"@).len() == 4);
        }
        assert(("webPath"@) != ("format"@)) by {
            assert(("webPath"@).len() == 7);
            assert(("format"@).len() == 6);
        }
        assert(("exif"@) != ("format"@)) by {
            assert(("exif"@).len() == 4);
            assert(("format"@).len() == 6);
        }
        if self.exif is Some {
            lemma_encode_of_accepted::<ExifData>(self.exif->0);
        }
    }

    fn typename() -> (r: &'static str) {
        "GalleryPhoto"
    }

    fn to_bridge(&self) -> (r: Value) {
        let mut b = ObjBuilder::new();
        b.put("path", Value::Str(self.path.clone()));
        match &self.web_path {
            Some(x) => {
                b.put("webPath", Value::Str(x.clone()));
            },
            None => {},
        }
        match &self.exif {
            Some(x) => {
                proof {
                    lemma_encode_of::<ExifData>(*x);
                }
                b.put("exif", x.to_bridge());
            },
            None => {},
        }
        b.put("format", Value::Str(self.format.clone()));
        proof {
            assert(self.spec_encode() == ValueView::Obj(b@));
        }
        b.finish()
    }

    fn from_bridge(v: &Value) -> (r: Option<Self>) {
        let mut rd = match ObjReader::start(v) {
            Some(rd) => rd,
            None => {
                return None;
            },
        };
        let f_path: String = match rd.req("path") {
            Some(vv) => match vv {
                Value::Str(s) => s.clone(),
                _ => {
                    return None;
                },
            },
            None => {
                return None;
            },
        };
        let f_web_path: Option<String> = match rd.opt("webPath") {
            Some(vv) => match vv {
                Value::Str(s) => Some(s.clone()),
                _ => {
                    return None;
                },
            },
            None => None,
        };
        let f_exif: Option<ExifData> = match rd.opt("exif") {
            Some(vv) => match ExifData::from_bridge(vv) {
                Some(y) => {
                    proof {
                        lemma_accepts_of::<ExifData>(vv@);
                        lemma_encode_of::<ExifData>(y);
                    }
                    Some(y)
                },
                None => {
                    proof {
                        lemma_accepts_of::<ExifData>(vv@);
                    }
                    return None;
                },
            },
            None => None,
        };
        let f_format: String = match rd.req("format") {
            Some(vv) => match vv {
                Value::Str(s) => s.clone(),
                _ => {
                    return None;
                },
            },
            None => {
                return None;
            },
        };
        if !rd.done() {
            return None;
        }
        let x = GalleryPhoto { path: f_path, web_path: f_web_path, exif: f_exif, format: f_format };
        proof {
            assert(x.spec_encode() == v@);
            x.lemma_encode_accepted();
        }
        Some(x)
    }
}
impl BridgeDto for GalleryPhotos {
    open spec fn spec_encode(self) -> ValueView {
        let fs = Seq::<(Seq<char>, ValueView)>::empty();
        let fs = fs.push(("photos"@, spec_encode_seq(self.photos@)));
        ValueView::Obj(fs)
    }

    open spec fn spec_accepts(m: ValueView) -> bool {
        &&& m matches ValueView::Obj(fs)
        &&& {
            match req_field(fs, 0, "photos"@) {
                Some((v0, i0)) => spec_accepts_seq::<GalleryPhoto>(v0) && {
                    i0 == fs.len()
                },
                None => false,
            }
        }
    }

    open spec fn spec_typename() -> Seq<char> {
        "GalleryPhotos"@
    }

    proof fn lemma_encode_accepted(&self) {
        lemma_seq_encode_accepted(self.photos@);
    }

    fn typename() -> (r: &'static str) {
        "GalleryPhotos"
    }

    fn to_bridge(&self) -> (r: Value) {
        let mut b = ObjBuilder::new();
        b.put("photos", encode_seq(&self.photos));
        proof {
            assert(self.spec_encode() == ValueView::Obj(b@));
        }
        b.finish()
    }

    fn from_bridge(v: &Value) -> (r: Option<Self>) {
        let mut rd = match ObjReader::start(v) {
            Some(rd) => rd,
            None => {
                return None;
            },
        };
        let f_photos: Vec<GalleryPhoto> = match rd.req("photos") {
            Some(vv) => match decode_seq::<GalleryPhoto>(vv) {
                Some(ys) => ys,
                None => {
                    return None;
                },
            },
            None => {
                return None;
            },
        };
        if !rd.done() {
            return None;
        }
        let x = GalleryPhotos { photos: f_photos };
        proof {
            assert(x.spec_encode() == v@);
            x.lemma_encode_accepted();
        }
        Some(x)
    }
}
impl BridgeDto for ImageOptions {
    open spec fn spec_encode(self) -> ValueView {
        let fs = Seq::<(Seq<char>, ValueView)>::empty();
        let fs = fs.push(("quality"@, ValueView::Int(self.quality as int)));
        let fs = fs.push(("allowEditing"@, ValueView::Bool(self.allow_editing)));
        let fs = fs.push(("resultType"@, encode_of::<CameraResultType>(self.result_type)));
        let fs = fs.push(("saveToGallery"@, ValueView::Bool(self.save_to_gallery)));
        let fs = fs.push(("width"@, ValueView::Int(self.width as int)));
        let fs = fs.push(("height"@, ValueView::Int(self.height as int)));
        let fs = fs.push(("correctOrientation"@, ValueView::Bool(self.correct_orientation)));
        let fs = fs.push(("source"@, encode_of::<CameraSource>(self.source)));
        let fs = if self.direction is Some { fs.push(("direction"@, encode_of::<CameraDirection>((self.direction->0)))) } else { fs };
        let fs = if self.presentation_style is Some { fs.push(("presentationStyle"@, encode_of::<PresentationStyle>((self.presentation_style->0)))) } else { fs };
        let fs = if self.web_use_input is Some { fs.push(("webUseInput"@, ValueView::Bool((self.web_use_input->0)))) } else { fs };
        let fs = fs.push(("promptLabelHeader"@, ValueView::Str(self.prompt_label_header@)));
        let fs = if self.prompt_label_cancel is Some { fs.push(("promptLabelCancel"@, ValueView::Str((self.prompt_label_cancel->0)@))) } else { fs };
        let fs = if self.prompt_label_photo is Some { fs.push(("promptLabelPhoto"@, ValueView::Str((self.prompt_label_photo->0)@))) } else { fs };
        let fs = if self.prompt_label_picture is Some { fs.push(("promptLabelPicture"@, ValueView::Str((self.prompt_label_picture->0)@))) } else { fs };
        ValueView::Obj(fs)
    }

    open spec fn spec_accepts(m: ValueView) -> bool {
        &&& m matches ValueView::Obj(fs)
        &&& {
            match req_field(fs, 0, "quality"@) {
                Some((v0, i0)) => (v0 matches ValueView::Int(n) && 0 <= n <= u8::MAX as int) && {
                    match req_field(fs, i0, "allowEditing"@) {
                        Some((v1, i1)) => v1 is Bool && {
                            match req_field(fs, i1, "resultType"@) {
                                Some((v2, i2)) => accepts_of::<CameraResultType>(v2) && {
                                    match req_field(fs, i2, "saveToGallery"@) {
                                        Some((v3, i3)) => v3 is Bool && {
                                            match req_field(fs, i3, "width"@) {
                                                Some((v4, i4)) => (v4 matches ValueView::Int(n) && 0 <= n <= u32::MAX as int) && {
                                                    match req_field(fs, i4, "height"@) {
                                                        Some((v5, i5)) => (v5 matches ValueView::Int(n) && 0 <= n <= u32::MAX as int) && {
                                                            match req_field(fs, i5, "correctOrientation"@) {
                                                                Some((v6, i6)) => v6 is Bool && {
                                                                    match req_field(fs, i6, "source"@) {
                                                                        Some((v7, i7)) => accepts_of::<CameraSource>(v7) && {
                                                                            let (o8, i8) = opt_field(fs, i7, "direction"@);
                                                                            (match o8 { Some(w) => accepts_of::<CameraDirection>(w), None => true }) && {
                                                                                let (o9, i9) = opt_field(fs, i8, "presentationStyle"@);
                                                                                (match o9 { Some(w) => accepts_of::<PresentationStyle>(w), None => true }) && {
                                                                                    let (o10, i10) = opt_field(fs, i9, "webUseInput"@);
                                                                                    (match o10 { Some(w) => w is Bool, None => true }) && {
                                                                                        match req_field(fs, i10, "promptLabelHeader"@) {
                                                                                            Some((v11, i11)) => v11 is Str && {
                                                                                                let (o12, i12) = opt_field(fs, i11, "promptLabelCancel"@);
                                                                                                (match o12 { Some(w) => w is Str, None => true }) && {
                                                                                                    let (o13, i13) = opt_field(fs, i12, "promptLabelPhoto"@);
                                                                                                    (match o13 { Some(w) => w is Str, None => true }) && {
                                                                                                        let (o14, i14) = opt_field(fs, i13, "promptLabelPicture"@);
                                                                                                        (match o14 { Some(w) => w is Str, None => true }) && {
                                                                                                            i14 == fs.len()
                                                                                                        }
                                                                                                    }
                                                                                                }
                                                                                            },
                                                                                            None => false,
                                                                                        }
                                                                                    }
                                                                                }
                                                                            }
                                                                        },
                                                                        None => false,
                                                                    }
                                                                },
                                                                None => false,
                                                            }
                                                        },
                                                        None => false,
                                                    }
                                                },
                                                None => false,
                                            }
                                        },
                                        None => false,
                                    }
                                },
                                None => false,
                            }
                        },
                        None => false,
                    }
                },
                None => false,
            }
        }
    }

    open spec fn spec_typename() -> Seq<char> {
        "ImageOptions"@
    }

    #[verifier::rlimit(100)]
    #[verifier::spinoff_prover]
    proof fn lemma_encode_accepted(&self) {
        reveal_strlit("direction");
        reveal_strlit("presentationStyle");
        reveal_strlit("promptLabelCancel");
        reveal_strlit("promptLabelHeader");
        reveal_strlit("promptLabelPhoto");
        reveal_strlit("promptLabelPicture");
        reveal_strlit("webUseInput");
        assert(("direction"@) != ("presentationStyle"@)) by {
            assert(("direction"@).len() == 9);
            assert(("presentationStyle"@).len() == 17);
        }
        assert(("direction"@) != ("webUseInput"@)) by {
            assert(("direction"@).len() == 9);
            assert(("webUseInput"@).len() == 11);
        }
        assert(("direction"@) != ("promptLabelHeader"@)) by {
            assert(("direction"@).len() == 9);
            assert(("promptLabelHeader"@).len() == 17);
        }
        assert(("direction"@) != ("promptLabelCancel"@)) by {
            assert(("direction"@).len() == 9);
            assert(("promptLabelCancel"@).len() == 17);
        }
        assert(("direction"@) != ("promptLabelPhoto"@)) by {
            assert(("direction"@).len() == 9);
            assert(("promptLabelPhoto"@).len() == 16);
        }
        assert(("direction"@) != ("promptLabelPicture"@)) by {
            assert(("direction"@).len() == 9);
            assert(("promptLabelPicture"@).len() == 18);
        }
        assert(("presentationStyle"@) != ("webUseInput"@)) by {
            assert(("presentationStyle"@).len() == 17);
            assert(("webUseInput"@).len() == 11);
        }
        assert(("presentationStyle"@) != ("promptLabelHeader"@)) by {
            if ("presentationStyle"@) == ("promptLabelHeader"@) {
                assert(("presentationStyle"@)[2] == ("promptLabelHeader"@)[2]);
            }
        }
        assert(("presentationStyle"@) != ("promptLabelCancel"@)) by {
            if ("presentationStyle"@) == ("promptLabelCancel"@) {
                assert(("presentationStyle"@)[2] == ("promptLabelCancel"@)[2]);
            }
        }
        assert(("presentationStyle"@) != ("promptLabelPhoto"@)) by {
            assert(("presentationStyle"@).len() == 17);
            assert(("promptLabelPhoto"@).len() == 16);
        }
        assert(("presentationStyle"@) != ("promptLabelPicture"@)) by {
            assert(("presentationStyle"@).len() == 17);
            assert(("promptLabelPicture"@).len() == 18);
        }
        assert(("webUseInput"@) != ("promptLabelHeader"@)) by {
            assert(("webUseInput"@).len() == 11);
            assert(("promptLabelHeader"@).len() == 17);
        }
        assert(("webUseInput"@) != ("promptLabelCancel"@)) by {
            assert(("webUseInput"@).len() == 11);
            assert(("promptLabelCancel"@).len() == 17);
        }
        assert(("webUseInput"@) != ("promptLabelPhoto"@)) by {
            assert(("webUseInput"@).len() == 11);
            assert(("promptLabelPhoto"@).len() == 16);
        }
        assert(("webUseInput"@) != ("promptLabelPicture"@)) by {
            assert(("webUseInput"@).len() == 11);
            assert(("promptLabelPicture"@).len() == 18);
        }
        lemma_encode_of_accepted::<CameraResultType>(self.result_type);
        lemma_encode_of_accepted::<CameraSource>(self.source);
        if self.direction is Some {
            lemma_encode_of_accepted::<CameraDirection>(self.direction->0);
        }
        if self.presentation_style is Some {
            lemma_encode_of_accepted::<PresentationStyle>(self.presentation_style->0);
        }
    }

    fn typename() -> (r: &'static str) {
        "ImageOptions"
    }

    #[verifier::rlimit(100)]
    #[verifier::spinoff_prover]
    fn to_bridge(&self) -> (r: Value) {
        let mut b = ObjBuilder::new();
        b.put("quality", Value::Int(self.quality as i64));
        b.put("allowEditing", Value::Bool(self.allow_editing));
        proof {
            lemma_encode_of::<CameraResultType>(self.result_type);
        }
        b.put("resultType", self.result_type.to_bridge());
        b.put("saveToGallery", Value::Bool(self.save_to_gallery));
        b.put("width", Value::Int(self.width as i64));
        b.put("height", Value::Int(self.height as i64));
        b.put("correctOrientation", Value::Bool(self.correct_orientation));
        proof {
            lemma_encode_of::<CameraSource>(self.source);
        }
        b.put("source", self.source.to_bridge());
        match &self.direction {
            Some(x) => {
                proof {
                    lemma_encode_of::<CameraDirection>(*x);
                }
                b.put("direction", x.to_bridge());
            },
            None => {},
        }
        match &self.presentation_style {
            Some(x) => {
                proof {
                    lemma_encode_of::<PresentationStyle>(*x);
                }
                b.put("presentationStyle", x.to_bridge());
            },
            None => {},
        }
        match &self.web_use_input {
            Some(x) => {
                b.put("webUseInput", Value::Bool(*x));
            },
            None => {},
        }
        b.put("promptLabelHeader", Value::Str(self.prompt_label_header.clone()));
        match &self.prompt_label_cancel {
            Some(x) => {
                b.put("promptLabelCancel", Value::Str(x.clone()));
            },
            None => {},
        }
        match &self.prompt_label_photo {
            Some(x) => {
                b.put("promptLabelPhoto", Value::Str(x.clone()));
            },
            None => {},
        }
        match &self.prompt_label_picture {
            Some(x) => {
                b.put("promptLabelPicture", Value::Str(x.clone()));
            },
            None => {},
        }
        proof {
            assert(self.spec_encode() == ValueView::Obj(b@));
        }
        b.finish()
    }

    #[verifier::rlimit(100)]
    #[verifier::spinoff_prover]
    fn from_bridge(v: &Value) -> (r: Option<Self>) {
        let mut rd = match ObjReader::start(v) {
            Some(rd) => rd,
            None => {
                return None;
            },
        };
        let f_quality: u8 = match rd.req("quality") {
            Some(vv) => match vv {
                Value::Int(n) => {
                    if *n < 0 || *n > u8::MAX as i64 {
                        return None;
                    }
                    *n as u8
                },
                _ => {
                    return None;
                },
            },
            None => {
                return None;
            },
        };
        let f_allow_editing: bool = match rd.req("allowEditing") {
            Some(vv) => match vv {
                Value::Bool(bb) => *bb,
                _ => {
                    return None;
                },
            },
            None => {
                return None;
            },
        };
        let f_result_type: CameraResultType = match rd.req("resultType") {
            Some(vv) => match CameraResultType::from_bridge(vv) {
                Some(y) => {
                    proof {
                        lemma_accepts_of::<CameraResultType>(vv@);
                        lemma_encode_of::<CameraResultType>(y);
                    }
                    y
                },
                None => {
                    proof {
                        lemma_accepts_of::<CameraResultType>(vv@);
                    }
                    return None;
                },
            },
            None => {
                return None;
            },
        };
        let f_save_to_gallery: bool = match rd.req("saveToGallery") {
            Some(vv) => match vv {
                Value::Bool(bb) => *bb,
                _ => {
                    return None;
                },
            },
            None => {
                return None;
            },
        };
        let f_width: u32 = match rd.req("width") {
            Some(vv) => match vv {
                Value::Int(n) => {
                    if *n < 0 || *n > u32::MAX as i64 {
                        return None;
                    }
                    *n as u32
                },
                _ => {
                    return None;
                },
            },
            None => {
                return None;
            },
        };
        let f_height: u32 = match rd.req("height") {
            Some(vv) => match vv {
                Value::Int(n) => {
                    if *n < 0 || *n > u32::MAX as i64 {
                        return None;
                    }
                    *n as u32
                },
                _ => {
                    return None;
                },
            },
            None => {
                return None;
            },
        };
        let f_correct_orientation: bool = match rd.req("correctOrientation") {
            Some(vv) => match vv {
                Value::Bool(bb) => *bb,
                _ => {
                    return None;
                },
            },
            None => {
                return None;
            },
        };
        let f_source: CameraSource = match rd.req("source") {
            Some(vv) => match CameraSource::from_bridge(vv) {
                Some(y) => {
                    proof {
                        lemma_accepts_of::<CameraSource>(vv@);
                        lemma_encode_of::<CameraSource>(y);
                    }
                    y
                },
                None => {
                    proof {
                        lemma_accepts_of::<CameraSource>(vv@);
                    }
                    return None;
                },
            },
            None => {
                return None;
            },
        };
        let f_direction: Option<CameraDirection> = match rd.opt("direction") {
            Some(vv) => match CameraDirection::from_bridge(vv) {
                Some(y) => {
                    proof {
                        lemma_accepts_of::<CameraDirection>(vv@);
                        lemma_encode_of::<CameraDirection>(y);
                    }
                    Some(y)
                },
                None => {
                    proof {
                        lemma_accepts_of::<CameraDirection>(vv@);
                    }
                    return None;
                },
            },
            None => None,
        };
        let f_presentation_style: Option<PresentationStyle> = match rd.opt("presentationStyle") {
            Some(vv) => match PresentationStyle::from_bridge(vv) {
                Some(y) => {
                    proof {
                        lemma_accepts_of::<PresentationStyle>(vv@);
                        lemma_encode_of::<PresentationStyle>(y);
                    }
                    Some(y)
                },
                None => {
                    proof {
                        lemma_accepts_of::<PresentationStyle>(vv@);
                    }
                    return None;
                },
            },
            None => None,
        };
        let f_web_use_input: Option<bool> = match rd.opt("webUseInput") {
            Some(vv) => match vv {
                Value::Bool(bb) => Some(*bb),
                _ => {
                    return None;
                },
            },
            None => None,
        };
        let f_prompt_label_header: String = match rd.req("promptLabelHeader") {
            Some(vv) => match vv {
                Value::Str(s) => s.clone(),
                _ => {
                    return None;
                },
            },
            None => {
                return None;
            },
        };
        let f_prompt_label_cancel: Option<String> = match rd.opt("promptLabelCancel") {
            Some(vv) => match vv {
                Value::Str(s) => Some(s.clone()),
                _ => {
                    return None;
                },
            },
            None => None,
        };
        let f_prompt_label_photo: Option<String> = match rd.opt("promptLabelPhoto") {
            Some(vv) => match vv {
                Value::Str(s) => Some(s.clone()),
                _ => {
                    return None;
                },
            },
            None => None,
        };
        let f_prompt_label_picture: Option<String> = match rd.opt("promptLabelPicture") {
            Some(vv) => match vv {
                Value::Str(s) => Some(s.clone()),
                _ => {
                    return None;
                },
            },
            None => None,
        };
        if !rd.done() {
            return None;
        }
        let x = ImageOptions { quality: f_quality, allow_editing: f_allow_editing, result_type: f_result_type, save_to_gallery: f_save_to_gallery, width: f_width, height: f_height, correct_orientation: f_correct_orientation, source: f_source, direction: f_direction, presentation_style: f_presentation_style, web_use_input: f_web_use_input, prompt_label_header: f_prompt_label_header, prompt_label_cancel: f_prompt_label_cancel, prompt_label_photo: f_prompt_label_photo, prompt_label_picture: f_prompt_label_picture };
        proof {
            assert(x.spec_encode() == v@);
            x.lemma_encode_accepted();
        }
        Some(x)
    }
}
impl BridgeDto for GalleryImageOptions {
    open spec fn spec_encode(self) -> ValueView {
        let fs = Seq::<(Seq<char>, ValueView)>::empty();
        let fs = fs.push(("quality"@, ValueView::Int(self.quality as int)));
        let fs = fs.push(("width"@, ValueView::Int(self.width as int)));
        let fs = fs.push(("height"@, ValueView::Int(self.height as int)));
        let fs = fs.push(("correctOrientation"@, ValueView::Bool(self.correct_orientation)));
        let fs = if self.presentation_style is Some { fs.push(("presentationStyle"@, encode_of::<PresentationStyle>((self.presentation_style->0)))) } else { fs };
        let fs = if self.limit is Some { fs.push(("limit"@, ValueView::Int((self.limit->0) as int))) } else { fs };
        ValueView::Obj(fs)
    }

    open spec fn spec_accepts(m: ValueView) -> bool {
        &&& m matches ValueView::Obj(fs)
        &&& {
            match req_field(fs, 0, "quality"@) {
                Some((v0, i0)) => (v0 matches ValueView::Int(n) && 0 <= n <= u8::MAX as int) && {
                    match req_field(fs, i0, "width"@) {
                        Some((v1, i1)) => (v1 matches ValueView::Int(n) && 0 <= n <= u32::MAX as int) && {
                            match req_field(fs, i1, "height"@) {
                                Some((v2, i2)) => (v2 matches ValueView::Int(n) && 0 <= n <= u32::MAX as int) && {
                                    match req_field(fs, i2, "correctOrientation"@) {
                                        Some((v3, i3)) => v3 is Bool && {
                                            let (o4, i4) = opt_field(fs, i3, "presentationStyle"@);
                                            (match o4 { Some(w) => accepts_of::<PresentationStyle>(w), None => true }) && {
                                                let (o5, i5) = opt_field(fs, i4, "limit"@);
                                                (match o5 { Some(w) => (w matches ValueView::Int(n) && 0 <= n <= u32::MAX as int), None => true }) && {
                                                    i5 == fs.len()
                                                }
                                            }
                                        },
                                        None => false,
                                    }
                                },
                                None => false,
                            }
                        },
                        None => false,
                    }
                },
                None => false,
            }
        }
    }

    open spec fn spec_typename() -> Seq<char> {
        "GalleryImageOptions"@
    }

    proof fn lemma_encode_accepted(&self) {
        reveal_strlit("limit");
        reveal_strlit("presentationStyle");
        assert(("presentationStyle"@) != ("limit"@)) by {
            assert(("presentationStyle"@).len() == 17);
            assert(("limit"@).len() == 5);
        }
        if self.presentation_style is Some {
            lemma_encode_of_accepted::<PresentationStyle>(self.presentation_style->0);
        }
    }

    fn typename() -> (r: &'static str) {
        "GalleryImageOptions"
    }

    fn to_bridge(&self) -> (r: Value) {
        let mut b = ObjBuilder::new();
        b.put("quality", Value::Int(self.quality as i64));
        b.put("width", Value::Int(self.width as i64));
        b.put("height", Value::Int(self.height as i64));
        b.put("correctOrientation", Value::Bool(self.correct_orientation));
        match &self.presentation_style {
            Some(x) => {
                proof {
                    lemma_encode_of::<PresentationStyle>(*x);
                }
                b.put("presentationStyle", x.to_bridge());
            },
            None => {},
        }
        match &self.limit {
            Some(x) => {
                b.put("limit", Value::Int(*x as i64));
            },
            None => {},
        }
        proof {
            assert(self.spec_encode() == ValueView::Obj(b@));
        }
        b.finish()
    }

    fn from_bridge(v: &Value) -> (r: Option<Self>) {
        let mut rd = match ObjReader::start(v) {
            Some(rd) => rd,
            None => {
                return None;
            },
        };
        let f_quality: u8 = match rd.req("quality") {
            Some(vv) => match vv {
                Value::Int(n) => {
                    if *n < 0 || *n > u8::MAX as i64 {
                        return None;
                    }
                    *n as u8
                },
                _ => {
                    return None;
                },
            },
            None => {
                return None;
            },
        };
        let f_width: u32 = match rd.req("width") {
            Some(vv) => match vv {
                Value::Int(n) => {
                    if *n < 0 || *n > u32::MAX as i64 {
                        return None;
                    }
                    *n as u32
                },
                _ => {
                    return None;
                },
            },
            None => {
                return None;
            },
        };
        let f_height: u32 = match rd.req("height") {
            Some(vv) => match vv {
                Value::Int(n) => {
                    if *n < 0 || *n > u32::MAX as i64 {
                        return None;
                    }
                    *n as u32
                },
                _ => {
                    return None;
                },
            },
            None => {
                return None;
            },
        };
        let f_correct_orientation: bool = match rd.req("correctOrientation") {
            Some(vv) => match vv {
                Value::Bool(bb) => *bb,
                _ => {
                    return None;
                },
            },
            None => {
                return None;
            },
        };
        let f_presentation_style: Option<PresentationStyle> = match rd.opt("presentationStyle") {
            Some(vv) => match PresentationStyle::from_bridge(vv) {
                Some(y) => {
                    proof {
                        lemma_accepts_of::<PresentationStyle>(vv@);
                        lemma_encode_of::<PresentationStyle>(y);
                    }
                    Some(y)
                },
                None => {
                    proof {
                        lemma_accepts_of::<PresentationStyle>(vv@);
                    }
                    return None;
                },
            },
            None => None,
        };
        let f_limit: Option<u32> = match rd.opt("limit") {
            Some(vv) => match vv {
                Value::Int(n) => {
                    if *n < 0 || *n > u32::MAX as i64 {
                        return None;
                    }
                    Some(*n as u32)
                },
                _ => {
                    return None;
                },
            },
            None => None,
        };
        if !rd.done() {
            return None;
        }
        let x = GalleryImageOptions { quality: f_quality, width: f_width, height: f_height, correct_orientation: f_correct_orientation, presentation_style: f_presentation_style, limit: f_limit };
        proof {
            assert(x.spec_encode() == v@);
            x.lemma_encode_accepted();
        }
        Some(x)
    }
}
impl BridgeDto for PermissionStatus {
    open spec fn spec_encode(self) -> ValueView {
        let fs = Seq::<(Seq<char>, ValueView)>::empty();
        let fs = fs.push(("camera"@, encode_of::<CameraPermissionState>(self.camera)));
        let fs = fs.push(("photos"@, encode_of::<CameraPermissionState>(self.photos)));
        ValueView::Obj(fs)
    }

    open spec fn spec_accepts(m: ValueView) -> bool {
        &&& m matches ValueView::Obj(fs)
        &&& {
            match req_field(fs, 0, "camera"@) {
                Some((v0, i0)) => accepts_of::<CameraPermissionState>(v0) && {
                    match req_field(fs, i0, "photos"@) {
                        Some((v1, i1)) => accepts_of::<CameraPermissionState>(v1) && {
                            i1 == fs.len()
                        },
                        None => false,
                    }
                },
                None => false,
            }
        }
    }

    open spec fn spec_typename() -> Seq<char> {
        "PermissionStatus"@
    }

    proof fn lemma_encode_accepted(&self) {
        lemma_encode_of_accepted::<CameraPermissionState>(self.camera);
        lemma_encode_of_accepted::<CameraPermissionState>(self.photos);
    }

    fn typename() -> (r: &'static str) {
        "PermissionStatus"
    }

    fn to_bridge(&self) -> (r: Value) {
        let mut b = ObjBuilder::new();
        proof {
            lemma_encode_of::<CameraPermissionState>(self.camera);
        }
        b.put("camera", self.camera.to_bridge());
        proof {
            lemma_encode_of::<CameraPermissionState>(self.photos);
        }
        b.put("photos", self.photos.to_bridge());
        proof {
            assert(self.spec_encode() == ValueView::Obj(b@));
        }
        b.finish()
    }

    fn from_bridge(v: &Value) -> (r: Option<Self>) {
        let mut rd = match ObjReader::start(v) {
            Some(rd) => rd,
            None => {
                return None;
            },
        };
        let f_camera: CameraPermissionState = match rd.req("camera") {
            Some(vv) => match CameraPermissionState::from_bridge(vv) {
                Some(y) => {
                    proof {
                        lemma_accepts_of::<CameraPermissionState>(vv@);
                        lemma_encode_of::<CameraPermissionState>(y);
                    }
                    y
                },
                None => {
                    proof {
                        lemma_accepts_of::<CameraPermissionState>(vv@);
                    }
                    return None;
                },
            },
            None => {
                return None;
            },
        };
        let f_photos: CameraPermissionState = match rd.req("photos") {
            Some(vv) => match CameraPermissionState::from_bridge(vv) {
                Some(y) => {
                    proof {
                        lemma_accepts_of::<CameraPermissionState>(vv@);
                        lemma_encode_of::<CameraPermissionState>(y);
                    }
                    y
                },
                None => {
                    proof {
                        lemma_accepts_of::<CameraPermissionState>(vv@);
                    }
                    return None;
                },
            },
            None => {
                return None;
            },
        };
        if !rd.done() {
            return None;
        }
        let x = PermissionStatus { camera: f_camera, photos: f_photos };
        proof {
            assert(x.spec_encode() == v@);
            x.lemma_encode_accepted();
        }
        Some(x)
    }
}
impl BridgeDto for CameraPluginPermissions {
    open spec fn spec_encode(self) -> ValueView {
        let fs = Seq::<(Seq<char>, ValueView)>::empty();
        let fs = fs.push(("permissions"@, spec_encode_seq(self.permissions@)));
        ValueView::Obj(fs)
    }

    open spec fn spec_accepts(m: ValueView) -> bool {
        &&& m matches ValueView::Obj(fs)
        &&& {
            match req_field(fs, 0, "permissions"@) {
                Some((v0, i0)) => spec_accepts_seq::<CameraPermissionType>(v0) && {
                    i0 == fs.len()
                },
                None => false,
            }
        }
    }

    open spec fn spec_typename() -> Seq<char> {
        "CameraPluginPermissions"@
    }

    proof fn lemma_encode_accepted(&self) {
        lemma_seq_encode_accepted(self.permissions@);
    }

    fn typename() -> (r: &'static str) {
        "CameraPluginPermissions"
    }

    fn to_bridge(&self) -> (r: Value) {
        let mut b = ObjBuilder::new();
        b.put("permissions", encode_seq(&self.permissions));
        proof {
            assert(self.spec_encode() == ValueView::Obj(b@));
        }
        b.finish()
    }

    fn from_bridge(v: &Value) -> (r: Option<Self>) {
        let mut rd = match ObjReader::start(v) {
            Some(rd) => rd,
            None => {
                return None;
            },
        };
        let f_permissions: Vec<CameraPermissionType> = match rd.req("permissions") {
            Some(vv) => match decode_seq::<CameraPermissionType>(vv) {
                Some(ys) => ys,
                None => {
                    return None;
                },
            },
            None => {
                return None;
            },
        };
        if !rd.done() {
            return None;
        }
        let x = CameraPluginPermissions { permissions: f_permissions };
        proof {
            assert(x.spec_encode() == v@);
            x.lemma_encode_accepted();
        }
        Some(x)
    }
}
impl From<PermissionState> for CameraPermissionState {
    fn from(value: PermissionState) -> (r: Self) {
        match value {
            PermissionState::Prompt => CameraPermissionState::Prompt,
            PermissionState::PromptWithRationale => CameraPermissionState::PromptWithRationale,
            PermissionState::Granted => CameraPermissionState::Granted,
            PermissionState::Denied => CameraPermissionState::Denied,
        }
    }
}

impl vstd::std_specs::convert::FromSpecImpl<PermissionState> for CameraPermissionState {
    open spec fn obeys_from_spec() -> bool {
        true
    }

    open spec fn from_spec(value: PermissionState) -> Self {
        match value {
            PermissionState::Prompt => CameraPermissionState::Prompt,
            PermissionState::PromptWithRationale => CameraPermissionState::PromptWithRationale,
            PermissionState::Granted => CameraPermissionState::Granted,
            PermissionState::Denied => CameraPermissionState::Denied,
        }
    }
}

} // verus!
