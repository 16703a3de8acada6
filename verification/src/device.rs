//! The device plugin's response types.

use vstd::prelude::*;
#[allow(unused_imports)]
use crate::codec::{BridgeDto, ObjBuilder, ObjReader, accepts_of, decode_seq, decode_strs,
    encode_of, encode_seq, encode_strs, lemma_accepts_of, lemma_encode_of,
    lemma_encode_of_accepted, lemma_seq_encode_accepted, lemma_strs_encode_accepted, opt_field,
    req_field, spec_accepts_seq, spec_accepts_strs, spec_encode_seq, spec_encode_strs};
#[allow(unused_imports)]
use crate::value::{Value, ValueView, field_views, lemma_field_views, str_eq};

verus! {

/// The device plugin: identity, platform and locale of the device.
pub struct Device;

/// The identifier of the device as available to the app.
#[derive(Clone, Debug, PartialEq)]
pub struct DeviceId {
    pub identifier: String,
}
/// The device platform.
#[derive(Clone, Copy, Debug, PartialEq, Eq, Structural)]
pub enum Platform {
    IOs,
    Android,
    Web,
}
/// The operating system of the device.
#[derive(Clone, Copy, Debug, PartialEq, Eq, Structural)]
pub enum OperatingSystem {
    IOs,
    Android,
    Windows,
    Mac,
    Unknown,
}
/// The two-character language code.
#[derive(Clone, Debug, PartialEq)]
pub struct GetLanguageCodeResult {
    pub value: String,
}
/// A well-formed IETF BCP 47 language tag.
#[derive(Clone, Debug, PartialEq)]
pub struct LanguageTag {
    pub value: String,
}
/// Information about the underlying device, OS and platform; byte counts are signed 64-bit.
#[derive(Clone, Debug, PartialEq)]
pub struct DeviceInfo {
    pub name: Option<String>,
    pub model: String,
    pub platform: Platform,
    pub operating_system: OperatingSystem,
    pub os_version: String,
    pub manufacturer: String,
    pub is_virtual: bool,
    pub mem_used: Option<i64>,
    pub disk_free: Option<i64>,
    pub disk_total: Option<i64>,
    pub real_disk_free: Option<i64>,
    pub real_disk_total: Option<i64>,
    pub web_view_version: Option<String>,
    pub ios_version: Option<String>,
    pub android_sdk_version: Option<String>,
}
/// The leading fields of a device description: name, model, platform,
/// operating system, version, manufacturer and the emulator flag.  Yields
/// the cursor after them.
#[verifier::opaque]
pub open spec fn device_head(fs: Seq<(Seq<char>, ValueView)>) -> Option<int> {
    let (o0, i0) = opt_field(fs, 0, "name"@);
    if (match o0 { Some(w) => w is Str, None => true }) {
        match req_field(fs, i0, "model"@) {
            Some((v1, i1)) => if v1 is Str {
                match req_field(fs, i1, "platform"@) {
                    Some((v2, i2)) => if accepts_of::<Platform>(v2) {
                        match req_field(fs, i2, "operatingSystem"@) {
                            Some((v3, i3)) => if accepts_of::<OperatingSystem>(v3) {
                                match req_field(fs, i3, "osVersion"@) {
                                    Some((v4, i4)) => if v4 is Str {
                                        match req_field(fs, i4, "manufacturer"@) {
                                            Some((v5, i5)) => if v5 is Str {
                                                match req_field(fs, i5, "isVirtual"@) {
                                                    Some((v6, i6)) => if v6 is Bool {
                                                        Some(i6)
                                                    } else {
                                                        None
                                                    },
                                                    None => None,
                                                }
                                            } else {
                                                None
                                            },
                                            None => None,
                                        }
                                    } else {
                                        None
                                    },
                                    None => None,
                                }
                            } else {
                                None
                            },
                            None => None,
                        }
                    } else {
                        None
                    },
                    None => None,
                }
            } else {
                None
            },
            None => None,
        }
    } else {
        None
    }
}

/// The optional storage and memory counters of a device description.
/// Yields the cursor after them.
#[verifier::opaque]
pub open spec fn device_mid(fs: Seq<(Seq<char>, ValueView)>, i: int) -> Option<int> {
    let (o0, i0) = opt_field(fs, i, "memUsed"@);
    if (match o0 { Some(w) => w is Int, None => true }) {
        let (o1, i1) = opt_field(fs, i0, "diskFree"@);
        if (match o1 { Some(w) => w is Int, None => true }) {
            let (o2, i2) = opt_field(fs, i1, "diskTotal"@);
            if (match o2 { Some(w) => w is Int, None => true }) {
                let (o3, i3) = opt_field(fs, i2, "realDiskFree"@);
                if (match o3 { Some(w) => w is Int, None => true }) {
                    let (o4, i4) = opt_field(fs, i3, "realDiskTotal"@);
                    if (match o4 { Some(w) => w is Int, None => true }) {
                        Some(i4)
                    } else {
                        None
                    }
                } else {
                    None
                }
            } else {
                None
            }
        } else {
            None
        }
    } else {
        None
    }
}

/// The optional version texts of a device description, which must end the
/// object.
#[verifier::opaque]
pub open spec fn device_tail(fs: Seq<(Seq<char>, ValueView)>, i: int) -> bool {
    let (o0, i0) = opt_field(fs, i, "webViewVersion"@);
    (match o0 { Some(w) => w is Str, None => true }) && {
        let (o1, i1) = opt_field(fs, i0, "iOSVersion"@);
        (match o1 { Some(w) => w is Str, None => true }) && {
            let (o2, i2) = opt_field(fs, i1, "androidSDKVersion"@);
            (match o2 { Some(w) => w is Str, None => true }) && i2 == fs.len()
        }
    }
}

/// The encoded leading fields of a device description.
pub open spec fn device_head_fields(
    name: Option<String>,
    model: String,
    platform: Platform,
    operating_system: OperatingSystem,
    os_version: String,
    manufacturer: String,
    is_virtual: bool,
) -> Seq<(Seq<char>, ValueView)> {
    let fs = Seq::<(Seq<char>, ValueView)>::empty();
    let fs = if name is Some {
        fs.push(("name"@, ValueView::Str((name->0)@)))
    } else {
        fs
    };
    let fs = fs.push(("model"@, ValueView::Str(model@)));
    let fs = fs.push(("platform"@, encode_of::<Platform>(platform)));
    let fs = fs.push(("operatingSystem"@, encode_of::<OperatingSystem>(operating_system)));
    let fs = fs.push(("osVersion"@, ValueView::Str(os_version@)));
    let fs = fs.push(("manufacturer"@, ValueView::Str(manufacturer@)));
    let fs = fs.push(("isVirtual"@, ValueView::Bool(is_virtual)));
    fs
}

/// The encoded storage and memory counters of a device description.
pub open spec fn device_mid_fields(
    mem_used: Option<i64>,
    disk_free: Option<i64>,
    disk_total: Option<i64>,
    real_disk_free: Option<i64>,
    real_disk_total: Option<i64>,
) -> Seq<(Seq<char>, ValueView)> {
    let fs = Seq::<(Seq<char>, ValueView)>::empty();
    let fs = if mem_used is Some {
        fs.push(("memUsed"@, ValueView::Int((mem_used->0) as int)))
    } else {
        fs
    };
    let fs = if disk_free is Some {
        fs.push(("diskFree"@, ValueView::Int((disk_free->0) as int)))
    } else {
        fs
    };
    let fs = if disk_total is Some {
        fs.push(("diskTotal"@, ValueView::Int((disk_total->0) as int)))
    } else {
        fs
    };
    let fs = if real_disk_free is Some {
        fs.push(("realDiskFree"@, ValueView::Int((real_disk_free->0) as int)))
    } else {
        fs
    };
    let fs = if real_disk_total is Some {
        fs.push(("realDiskTotal"@, ValueView::Int((real_disk_total->0) as int)))
    } else {
        fs
    };
    fs
}

/// The encoded version texts of a device description.
pub open spec fn device_tail_fields(
    web_view_version: Option<String>,
    ios_version: Option<String>,
    android_sdk_version: Option<String>,
) -> Seq<(Seq<char>, ValueView)> {
    let fs = Seq::<(Seq<char>, ValueView)>::empty();
    let fs = if web_view_version is Some {
        fs.push(("webViewVersion"@, ValueView::Str((web_view_version->0)@)))
    } else {
        fs
    };
    let fs = if ios_version is Some {
        fs.push(("iOSVersion"@, ValueView::Str((ios_version->0)@)))
    } else {
        fs
    };
    let fs = if android_sdk_version is Some {
        fs.push(("androidSDKVersion"@, ValueView::Str((android_sdk_version->0)@)))
    } else {
        fs
    };
    fs
}

/// The field names a probing decoder could confuse in a device
/// description.
proof fn lemma_device_names()
    ensures
        ("name"@) != ("model"@),
        ("memUsed"@) != ("webViewVersion"@),
        ("memUsed"@) != ("iOSVersion"@),
        ("memUsed"@) != ("androidSDKVersion"@),
        ("diskFree"@) != ("webViewVersion"@),
        ("diskFree"@) != ("iOSVersion"@),
        ("diskFree"@) != ("androidSDKVersion"@),
        ("diskTotal"@) != ("webViewVersion"@),
        ("diskTotal"@) != ("iOSVersion"@),
        ("diskTotal"@) != ("androidSDKVersion"@),
        ("realDiskFree"@) != ("webViewVersion"@),
        ("realDiskFree"@) != ("iOSVersion"@),
        ("realDiskFree"@) != ("androidSDKVersion"@),
        ("realDiskTotal"@) != ("webViewVersion"@),
        ("realDiskTotal"@) != ("iOSVersion"@),
        ("realDiskTotal"@) != ("androidSDKVersion"@),
{
    reveal_strlit("name");
    reveal_strlit("model");
    reveal_strlit("memUsed");
    reveal_strlit("diskFree");
    reveal_strlit("diskTotal");
    reveal_strlit("realDiskFree");
    reveal_strlit("realDiskTotal");
    reveal_strlit("webViewVersion");
    reveal_strlit("iOSVersion");
    reveal_strlit("androidSDKVersion");
    assert(("name"@) != ("model"@)) by {
        assert(("name"@).len() == 4);
        assert(("model"@).len() == 5);
    }
    assert(("memUsed"@).len() == 7);
    assert(("diskFree"@).len() == 8);
    assert(("diskTotal"@).len() == 9);
    assert(("realDiskFree"@).len() == 12);
    assert(("realDiskTotal"@).len() == 13);
    assert(("webViewVersion"@).len() == 14);
    assert(("iOSVersion"@).len() == 10);
    assert(("androidSDKVersion"@).len() == 17);
}

/// Encoding the leading fields lands their probes exactly, whatever
/// follows.
#[verifier::rlimit(100)]
#[verifier::spinoff_prover]
proof fn lemma_device_head_encode(
    name: Option<String>,
    model: String,
    platform: Platform,
    operating_system: OperatingSystem,
    os_version: String,
    manufacturer: String,
    is_virtual: bool,
    rest: Seq<(Seq<char>, ValueView)>,
)
    ensures
        device_head(
            device_head_fields(
                name,
                model,
                platform,
                operating_system,
                os_version,
                manufacturer,
                is_virtual,
            ) + rest,
        ) == Some(
            device_head_fields(
                name,
                model,
                platform,
                operating_system,
                os_version,
                manufacturer,
                is_virtual,
            ).len() as int,
        ),
{
    reveal(device_head);
    lemma_device_names();
    lemma_encode_of_accepted::<Platform>(platform);
    lemma_encode_of_accepted::<OperatingSystem>(operating_system);
}

/// Encoding the counters lands their probes exactly, provided what follows
/// cannot be mistaken for one of them.
#[verifier::rlimit(100)]
#[verifier::spinoff_prover]
proof fn lemma_device_mid_encode(
    prefix: Seq<(Seq<char>, ValueView)>,
    mem_used: Option<i64>,
    disk_free: Option<i64>,
    disk_total: Option<i64>,
    real_disk_free: Option<i64>,
    real_disk_total: Option<i64>,
    rest: Seq<(Seq<char>, ValueView)>,
)
    requires
        rest.len() > 0 ==> rest[0].0 != ("memUsed"@) && rest[0].0 != ("diskFree"@)
            && rest[0].0 != ("diskTotal"@) && rest[0].0 != ("realDiskFree"@)
            && rest[0].0 != ("realDiskTotal"@),
    ensures
        device_mid(
            prefix + device_mid_fields(
                mem_used,
                disk_free,
                disk_total,
                real_disk_free,
                real_disk_total,
            ) + rest,
            prefix.len() as int,
        ) == Some(
            (prefix.len() + device_mid_fields(
                mem_used,
                disk_free,
                disk_total,
                real_disk_free,
                real_disk_total,
            ).len()) as int,
        ),
{
    reveal(device_mid);
    lemma_device_names();
}

/// Encoding the version texts satisfies the trailing ladder and reaches the
/// end of the object.
#[verifier::rlimit(100)]
#[verifier::spinoff_prover]
proof fn lemma_device_tail_encode(
    prefix: Seq<(Seq<char>, ValueView)>,
    web_view_version: Option<String>,
    ios_version: Option<String>,
    android_sdk_version: Option<String>,
)
    ensures
        device_tail(
            prefix + device_tail_fields(web_view_version, ios_version, android_sdk_version),
            prefix.len() as int,
        ),
{
    reveal(device_tail);
    lemma_device_names();
}

/// Read the leading fields of a device description.
#[verifier::rlimit(100)]
#[verifier::spinoff_prover]
fn read_device_head<'a>(rd: &mut ObjReader<'a>) -> (r: Option<
    (Option<String>, String, Platform, OperatingSystem, String, String, bool),
>)
    requires
        old(rd).wf(),
        old(rd).cursor() == 0,
    ensures
        final(rd).wf(),
        final(rd).fs() == old(rd).fs(),
        match r {
            Some(p) => device_head(old(rd).fs()) == Some(final(rd).cursor())
                && final(rd).consumed() == old(rd).consumed() + device_head_fields(
                    p.0, p.1, p.2, p.3, p.4, p.5, p.6,
                ),
            None => device_head(old(rd).fs()) is None,
        },
{
    proof {
        reveal(device_head);
    }
    let f_name: Option<String> = match rd.opt("name") {
        Some(vv) => match vv {
            Value::Str(s) => Some(s.clone()),
            _ => {
                return None;
            },
        },
        None => None,
    };
    let f_model: String = match rd.req("model") {
        Some(vv) => match vv {
            Value::Str(s) => s.clone(),
            _ => {
                return None;
            },
        },
        None => {
            return None;
        },
    };
    let f_platform: Platform = match rd.req("platform") {
        Some(vv) => match Platform::from_bridge(vv) {
            Some(y) => {
                proof {
                    lemma_accepts_of::<Platform>(vv@);
                    lemma_encode_of::<Platform>(y);
                }
                y
            },
            None => {
                proof {
                    lemma_accepts_of::<Platform>(vv@);
                }
                return None;
            },
        },
        None => {
            return None;
        },
    };
    let f_operating_system: OperatingSystem = match rd.req("operatingSystem") {
        Some(vv) => match OperatingSystem::from_bridge(vv) {
            Some(y) => {
                proof {
                    lemma_accepts_of::<OperatingSystem>(vv@);
                    lemma_encode_of::<OperatingSystem>(y);
                }
                y
            },
            None => {
                proof {
                    lemma_accepts_of::<OperatingSystem>(vv@);
                }
                return None;
            },
        },
        None => {
            return None;
        },
    };
    let f_os_version: String = match rd.req("osVersion") {
        Some(vv) => match vv {
            Value::Str(s) => s.clone(),
            _ => {
                return None;
            },
        },
        None => {
            return None;
        },
    };
    let f_manufacturer: String = match rd.req("manufacturer") {
        Some(vv) => match vv {
            Value::Str(s) => s.clone(),
            _ => {
                return None;
            },
        },
        None => {
            return None;
        },
    };
    let f_is_virtual: bool = match rd.req("isVirtual") {
        Some(vv) => match vv {
            Value::Bool(bb) => *bb,
            _ => {
                return None;
            },
        },
        None => {
            return None;
        },
    };
    let p = (
        f_name,
        f_model,
        f_platform,
        f_operating_system,
        f_os_version,
        f_manufacturer,
        f_is_virtual,
    );
    proof {
        assert(rd.consumed() =~= old(rd).consumed() + device_head_fields(
            p.0, p.1, p.2, p.3, p.4, p.5, p.6,
        ));
    }
    Some(p)
}

/// Read the storage and memory counters of a device description.
#[verifier::rlimit(100)]
#[verifier::spinoff_prover]
fn read_device_mid<'a>(rd: &mut ObjReader<'a>) -> (r: Option<
    (Option<i64>, Option<i64>, Option<i64>, Option<i64>, Option<i64>),
>)
    requires
        old(rd).wf(),
    ensures
        final(rd).wf(),
        final(rd).fs() == old(rd).fs(),
        match r {
            Some(p) => device_mid(old(rd).fs(), old(rd).cursor()) == Some(final(rd).cursor())
                && final(rd).consumed() == old(rd).consumed() + device_mid_fields(
                    p.0, p.1, p.2, p.3, p.4,
                ),
            None => device_mid(old(rd).fs(), old(rd).cursor()) is None,
        },
{
    proof {
        reveal(device_mid);
    }
    let f_mem_used: Option<i64> = match rd.opt("memUsed") {
        Some(vv) => match vv {
            Value::Int(n) => Some(*n),
            _ => {
                return None;
            },
        },
        None => None,
    };
    let f_disk_free: Option<i64> = match rd.opt("diskFree") {
        Some(vv) => match vv {
            Value::Int(n) => Some(*n),
            _ => {
                return None;
            },
        },
        None => None,
    };
    let f_disk_total: Option<i64> = match rd.opt("diskTotal") {
        Some(vv) => match vv {
            Value::Int(n) => Some(*n),
            _ => {
                return None;
            },
        },
        None => None,
    };
    let f_real_disk_free: Option<i64> = match rd.opt("realDiskFree") {
        Some(vv) => match vv {
            Value::Int(n) => Some(*n),
            _ => {
                return None;
            },
        },
        None => None,
    };
    let f_real_disk_total: Option<i64> = match rd.opt("realDiskTotal") {
        Some(vv) => match vv {
            Value::Int(n) => Some(*n),
            _ => {
                return None;
            },
        },
        None => None,
    };
    let p = (f_mem_used, f_disk_free, f_disk_total, f_real_disk_free, f_real_disk_total);
    proof {
        assert(rd.consumed() =~= old(rd).consumed() + device_mid_fields(
            p.0, p.1, p.2, p.3, p.4,
        ));
    }
    Some(p)
}

/// Read the version texts of a device description, which must end the
/// object.
#[verifier::rlimit(100)]
#[verifier::spinoff_prover]
fn read_device_tail<'a>(rd: &mut ObjReader<'a>) -> (r: Option<
    (Option<String>, Option<String>, Option<String>),
>)
    requires
        old(rd).wf(),
    ensures
        final(rd).wf(),
        final(rd).fs() == old(rd).fs(),
        match r {
            Some(p) => device_tail(old(rd).fs(), old(rd).cursor())
                && final(rd).consumed() == old(rd).consumed() + device_tail_fields(
                    p.0, p.1, p.2,
                )
                && final(rd).fs() == final(rd).consumed(),
            None => !device_tail(old(rd).fs(), old(rd).cursor()),
        },
{
    proof {
        reveal(device_tail);
    }
    let f_web_view_version: Option<String> = match rd.opt("webViewVersion") {
        Some(vv) => match vv {
            Value::Str(s) => Some(s.clone()),
            _ => {
                return None;
            },
        },
        None => None,
    };
    let f_ios_version: Option<String> = match rd.opt("iOSVersion") {
        Some(vv) => match vv {
            Value::Str(s) => Some(s.clone()),
            _ => {
                return None;
            },
        },
        None => None,
    };
    let f_android_sdk_version: Option<String> = match rd.opt("androidSDKVersion") {
        Some(vv) => match vv {
            Value::Str(s) => Some(s.clone()),
            _ => {
                return None;
            },
        },
        None => None,
    };
    if !rd.done() {
        return None;
    }
    let p = (f_web_view_version, f_ios_version, f_android_sdk_version);
    proof {
        assert(rd.consumed() =~= old(rd).consumed() + device_tail_fields(p.0, p.1, p.2));
    }
    Some(p)
}

impl BridgeDto for DeviceInfo {
    open spec fn spec_encode(self) -> ValueView {
        ValueView::Obj(
            device_head_fields(
                self.name,
                self.model,
                self.platform,
                self.operating_system,
                self.os_version,
                self.manufacturer,
                self.is_virtual,
            ) + device_mid_fields(
                self.mem_used,
                self.disk_free,
                self.disk_total,
                self.real_disk_free,
                self.real_disk_total,
            ) + device_tail_fields(
                self.web_view_version,
                self.ios_version,
                self.android_sdk_version,
            ),
        )
    }

    open spec fn spec_accepts(m: ValueView) -> bool {
        &&& m matches ValueView::Obj(fs)
        &&& match device_head(fs) {
            Some(i) => match device_mid(fs, i) {
                Some(j) => device_tail(fs, j),
                None => false,
            },
            None => false,
        }
    }

    open spec fn spec_typename() -> Seq<char> {
        "DeviceInfo"@
    }

    proof fn lemma_encode_accepted(&self) {
        let hf = device_head_fields(
            self.name,
            self.model,
            self.platform,
            self.operating_system,
            self.os_version,
            self.manufacturer,
            self.is_virtual,
        );
        let mf = device_mid_fields(
            self.mem_used,
            self.disk_free,
            self.disk_total,
            self.real_disk_free,
            self.real_disk_total,
        );
        let tf = device_tail_fields(
            self.web_view_version,
            self.ios_version,
            self.android_sdk_version,
        );
        lemma_device_names();
        if tf.len() > 0 {
            assert(tf[0].0 != ("memUsed"@) && tf[0].0 != ("diskFree"@)
                && tf[0].0 != ("diskTotal"@) && tf[0].0 != ("realDiskFree"@)
                && tf[0].0 != ("realDiskTotal"@));
        }
        lemma_device_head_encode(
            self.name,
            self.model,
            self.platform,
            self.operating_system,
            self.os_version,
            self.manufacturer,
            self.is_virtual,
            mf + tf,
        );
        assert(hf + (mf + tf) =~= (hf + mf) + tf);
        lemma_device_mid_encode(
            hf,
            self.mem_used,
            self.disk_free,
            self.disk_total,
            self.real_disk_free,
            self.real_disk_total,
            tf,
        );
        assert(hf + mf + tf =~= (hf + mf) + tf);
        lemma_device_tail_encode(
            hf + mf,
            self.web_view_version,
            self.ios_version,
            self.android_sdk_version,
        );
    }

    fn typename() -> (r: &'static str) {
        "DeviceInfo"
    }

    #[verifier::rlimit(100)]
    #[verifier::spinoff_prover]
    fn to_bridge(&self) -> (r: Value) {
        let mut b = ObjBuilder::new();
        b.put_opt_str("name", &self.name);
        b.put("model", Value::Str(self.model.clone()));
        proof {
            lemma_encode_of::<Platform>(self.platform);
        }
        b.put("platform", self.platform.to_bridge());
        proof {
            lemma_encode_of::<OperatingSystem>(self.operating_system);
        }
        b.put("operatingSystem", self.operating_system.to_bridge());
        b.put("osVersion", Value::Str(self.os_version.clone()));
        b.put("manufacturer", Value::Str(self.manufacturer.clone()));
        b.put("isVirtual", Value::Bool(self.is_virtual));
        let ghost bh = b@;
        b.put_opt_i64("memUsed", &self.mem_used);
        b.put_opt_i64("diskFree", &self.disk_free);
        b.put_opt_i64("diskTotal", &self.disk_total);
        b.put_opt_i64("realDiskFree", &self.real_disk_free);
        b.put_opt_i64("realDiskTotal", &self.real_disk_total);
        let ghost bm = b@;
        b.put_opt_str("webViewVersion", &self.web_view_version);
        b.put_opt_str("iOSVersion", &self.ios_version);
        b.put_opt_str("androidSDKVersion", &self.android_sdk_version);
        proof {
            let hf = device_head_fields(
                self.name,
                self.model,
                self.platform,
                self.operating_system,
                self.os_version,
                self.manufacturer,
                self.is_virtual,
            );
            let mf = device_mid_fields(
                self.mem_used,
                self.disk_free,
                self.disk_total,
                self.real_disk_free,
                self.real_disk_total,
            );
            let tf = device_tail_fields(
                self.web_view_version,
                self.ios_version,
                self.android_sdk_version,
            );
            assert(bh =~= hf);
            assert(bm =~= bh + mf);
            assert(b@ =~= bm + tf);
            assert((hf + mf) + tf =~= hf + mf + tf);
            assert(self.spec_encode() == ValueView::Obj(b@));
        }
        b.finish()
    }

    fn from_bridge(v: &Value) -> (r: Option<Self>) {
        let mut rd = match ObjReader::start(v) {
            Some(rd) => rd,
            None => {
                return None;
            },
        };
        let h = match read_device_head(&mut rd) {
            Some(h) => h,
            None => {
                return None;
            },
        };
        let m = match read_device_mid(&mut rd) {
            Some(m) => m,
            None => {
                return None;
            },
        };
        let t = match read_device_tail(&mut rd) {
            Some(t) => t,
            None => {
                return None;
            },
        };
        let ghost gh = h;
        let ghost gm = m;
        let ghost gt = t;
        let x = DeviceInfo {
            name: h.0,
            model: h.1,
            platform: h.2,
            operating_system: h.3,
            os_version: h.4,
            manufacturer: h.5,
            is_virtual: h.6,
            mem_used: m.0,
            disk_free: m.1,
            disk_total: m.2,
            real_disk_free: m.3,
            real_disk_total: m.4,
            web_view_version: t.0,
            ios_version: t.1,
            android_sdk_version: t.2,
        };
        proof {
            assert(rd.fs() =~= rd.consumed());
            assert(((Seq::<(Seq<char>, ValueView)>::empty() + device_head_fields(
                gh.0, gh.1, gh.2, gh.3, gh.4, gh.5, gh.6,
            )) + device_mid_fields(gm.0, gm.1, gm.2, gm.3, gm.4)) + device_tail_fields(
                gt.0, gt.1, gt.2,
            ) =~= device_head_fields(gh.0, gh.1, gh.2, gh.3, gh.4, gh.5, gh.6)
                + device_mid_fields(gm.0, gm.1, gm.2, gm.3, gm.4)
                + device_tail_fields(gt.0, gt.1, gt.2));
            assert(x.spec_encode() == v@);
            x.lemma_encode_accepted();
        }
        Some(x)
    }
}

impl BridgeDto for DeviceId {
    open spec fn spec_encode(self) -> ValueView {
        let fs = Seq::<(Seq<char>, ValueView)>::empty();
        let fs = fs.push(("identifier"@, ValueView::Str(self.identifier@)));
        ValueView::Obj(fs)
    }

    open spec fn spec_accepts(m: ValueView) -> bool {
        &&& m matches ValueView::Obj(fs)
        &&& {
            match req_field(fs, 0, "identifier"@) {
                Some((v0, i0)) => v0 is Str && {
                    i0 == fs.len()
                },
                None => false,
            }
        }
    }

    open spec fn spec_typename() -> Seq<char> {
        "DeviceId"@
    }

    proof fn lemma_encode_accepted(&self) {
    }

    fn typename() -> (r: &'static str) {
        "DeviceId"
    }

    fn to_bridge(&self) -> (r: Value) {
        let mut b = ObjBuilder::new();
        b.put("identifier", Value::Str(self.identifier.clone()));
        proof {
            assert(self.spec_encode() == ValueView::Obj(b@));
        }
        b.finish()
    }

    fn from_bridge(v: &Value) -> (r: Option<Self>) {
        let mut rd = match ObjReader::start(v) {
            Some(rd) => rd,
            None => {
                return None;
            },
        };
        let f_identifier: String = match rd.req("identifier") {
            Some(vv) => match vv {
                Value::Str(s) => s.clone(),
                _ => {
                    return None;
                },
            },
            None => {
                return None;
            },
        };
        if !rd.done() {
            return None;
        }
        let x = DeviceId { identifier: f_identifier };
        proof {
            assert(x.spec_encode() == v@);
            x.lemma_encode_accepted();
        }
        Some(x)
    }
}
impl BridgeDto for Platform {
    open spec fn spec_encode(self) -> ValueView {
        match self {
            Platform::IOs => ValueView::Str("ios"@),
            Platform::Android => ValueView::Str("android"@),
            Platform::Web => ValueView::Str("web"@),
        }
    }

    open spec fn spec_accepts(m: ValueView) -> bool {
        m matches ValueView::Str(s) && (s == "ios"@ || s == "android"@ || s == "web"@)
    }

    open spec fn spec_typename() -> Seq<char> {
        "Platform"@
    }

    proof fn lemma_encode_accepted(&self) {
    }

    fn typename() -> (r: &'static str) {
        "Platform"
    }

    fn to_bridge(&self) -> (r: Value) {
        match self {
            Platform::IOs => Value::Str("ios".to_owned()),
            Platform::Android => Value::Str("android".to_owned()),
            Platform::Web => Value::Str("web".to_owned()),
        }
    }

    fn from_bridge(v: &Value) -> (r: Option<Self>) {
        match v {
            Value::Str(s) => {
                if str_eq(s.as_str(), "ios") {
                    Some(Platform::IOs)
                } else if str_eq(s.as_str(), "android") {
                    Some(Platform::Android)
                } else if str_eq(s.as_str(), "web") {
                    Some(Platform::Web)
                } else {
                    None
                }
            },
            _ => None,
        }
    }
}
impl BridgeDto for OperatingSystem {
    open spec fn spec_encode(self) -> ValueView {
        match self {
            OperatingSystem::IOs => ValueView::Str("ios"@),
            OperatingSystem::Android => ValueView::Str("android"@),
            OperatingSystem::Windows => ValueView::Str("windows"@),
            OperatingSystem::Mac => ValueView::Str("mac"@),
            OperatingSystem::Unknown => ValueView::Str("unknown"@),
        }
    }

    open spec fn spec_accepts(m: ValueView) -> bool {
        m matches ValueView::Str(s) && (s == "ios"@ || s == "android"@ || s == "windows"@ || s == "mac"@ || s == "unknown"@)
    }

    open spec fn spec_typename() -> Seq<char> {
        "OperatingSystem"@
    }

    proof fn lemma_encode_accepted(&self) {
    }

    fn typename() -> (r: &'static str) {
        "OperatingSystem"
    }

    fn to_bridge(&self) -> (r: Value) {
        match self {
            OperatingSystem::IOs => Value::Str("ios".to_owned()),
            OperatingSystem::Android => Value::Str("android".to_owned()),
            OperatingSystem::Windows => Value::Str("windows".to_owned()),
            OperatingSystem::Mac => Value::Str("mac".to_owned()),
            OperatingSystem::Unknown => Value::Str("unknown".to_owned()),
        }
    }

    fn from_bridge(v: &Value) -> (r: Option<Self>) {
        match v {
            Value::Str(s) => {
                if str_eq(s.as_str(), "ios") {
                    Some(OperatingSystem::IOs)
                } else if str_eq(s.as_str(), "android") {
                    Some(OperatingSystem::Android)
                } else if str_eq(s.as_str(), "windows") {
                    Some(OperatingSystem::Windows)
                } else if str_eq(s.as_str(), "mac") {
                    Some(OperatingSystem::Mac)
                } else if str_eq(s.as_str(), "unknown") {
                    Some(OperatingSystem::Unknown)
                } else {
                    None
                }
            },
            _ => None,
        }
    }
}
impl BridgeDto for GetLanguageCodeResult {
    open spec fn spec_encode(self) -> ValueView {
        let fs = Seq::<(Seq<char>, ValueView)>::empty();
        let fs = fs.push(("value"@, ValueView::Str(self.value@)));
        ValueView::Obj(fs)
    }

    open spec fn spec_accepts(m: ValueView) -> bool {
        &&& m matches ValueView::Obj(fs)
        &&& {
            match req_field(fs, 0, "value"@) {
                Some((v0, i0)) => v0 is Str && {
                    i0 == fs.len()
                },
                None => false,
            }
        }
    }

    open spec fn spec_typename() -> Seq<char> {
        "GetLanguageCodeResult"@
    }

    proof fn lemma_encode_accepted(&self) {
    }

    fn typename() -> (r: &'static str) {
        "GetLanguageCodeResult"
    }

    fn to_bridge(&self) -> (r: Value) {
        let mut b = ObjBuilder::new();
        b.put("value", Value::Str(self.value.clone()));
        proof {
            assert(self.spec_encode() == ValueView::Obj(b@));
        }
        b.finish()
    }

    fn from_bridge(v: &Value) -> (r: Option<Self>) {
        let mut rd = match ObjReader::start(v) {
            Some(rd) => rd,
            None => {
                return None;
            },
        };
        let f_value: String = match rd.req("value") {
            Some(vv) => match vv {
                Value::Str(s) => s.clone(),
                _ => {
                    return None;
                },
            },
            None => {
                return None;
            },
        };
        if !rd.done() {
            return None;
        }
        let x = GetLanguageCodeResult { value: f_value };
        proof {
            assert(x.spec_encode() == v@);
            x.lemma_encode_accepted();
        }
        Some(x)
    }
}
impl BridgeDto for LanguageTag {
    open spec fn spec_encode(self) -> ValueView {
        let fs = Seq::<(Seq<char>, ValueView)>::empty();
        let fs = fs.push(("value"@, ValueView::Str(self.value@)));
        ValueView::Obj(fs)
    }

    open spec fn spec_accepts(m: ValueView) -> bool {
        &&& m matches ValueView::Obj(fs)
        &&& {
            match req_field(fs, 0, "value"@) {
                Some((v0, i0)) => v0 is Str && {
                    i0 == fs.len()
                },
                None => false,
            }
        }
    }

    open spec fn spec_typename() -> Seq<char> {
        "LanguageTag"@
    }

    proof fn lemma_encode_accepted(&self) {
    }

    fn typename() -> (r: &'static str) {
        "LanguageTag"
    }

    fn to_bridge(&self) -> (r: Value) {
        let mut b = ObjBuilder::new();
        b.put("value", Value::Str(self.value.clone()));
        proof {
            assert(self.spec_encode() == ValueView::Obj(b@));
        }
        b.finish()
    }

    fn from_bridge(v: &Value) -> (r: Option<Self>) {
        let mut rd = match ObjReader::start(v) {
            Some(rd) => rd,
            None => {
                return None;
            },
        };
        let f_value: String = match rd.req("value") {
            Some(vv) => match vv {
                Value::Str(s) => s.clone(),
                _ => {
                    return None;
                },
            },
            None => {
                return None;
            },
        };
        if !rd.done() {
            return None;
        }
        let x = LanguageTag { value: f_value };
        proof {
            assert(x.spec_encode() == v@);
            x.lemma_encode_accepted();
        }
        Some(x)
    }
}

} // verus!
