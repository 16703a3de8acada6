//! The network plugin's types.

use vstd::prelude::*;
#[allow(unused_imports)]
use crate::codec::{BridgeDto, ObjBuilder, ObjReader, accepts_of, decode_seq, decode_strs,
    encode_of, encode_seq, encode_strs, lemma_accepts_of, lemma_encode_of,
    lemma_encode_of_accepted, lemma_seq_encode_accepted, lemma_strs_encode_accepted, opt_field,
    req_field, spec_accepts_seq, spec_accepts_strs, spec_encode_seq, spec_encode_strs};
#[allow(unused_imports)]
use crate::value::{Value, ValueView, field_views, lemma_field_views, str_eq};

verus! {

/// The network plugin: connection status queries and the status change event stream.
pub struct Network;

/// The state and type of the network connection; also the payload of the status change event stream.
#[derive(Clone, Debug, PartialEq)]
pub struct ConnectionStatus {
    pub connected: bool,
    pub connection_type: ConnectionType,
}
/// The kind of network connection a device might have.
#[derive(Clone, Copy, Debug, PartialEq, Eq, Structural)]
pub enum ConnectionType {
    Wifi,
    Cellular,
    NoConnection,
    Unknown,
}
impl BridgeDto for ConnectionStatus {
    open spec fn spec_encode(self) -> ValueView {
        let fs = Seq::<(Seq<char>, ValueView)>::empty();
        let fs = fs.push(("connected"@, ValueView::Bool(self.connected)));
        let fs = fs.push(("connectionType"@, encode_of::<ConnectionType>(self.connection_type)));
        ValueView::Obj(fs)
    }

    open spec fn spec_accepts(m: ValueView) -> bool {
        &&& m matches ValueView::Obj(fs)
        &&& {
            match req_field(fs, 0, "connected"@) {
                Some((v0, i0)) => v0 is Bool && {
                    match req_field(fs, i0, "connectionType"@) {
                        Some((v1, i1)) => accepts_of::<ConnectionType>(v1) && {
                            i1 == fs.len()
                        },
                        None => false,
                    }
                },
                None => false,
            }
        }
    }

    open spec fn spec_typename() -> Seq<char> {
        "ConnectionStatus"@
    }

    proof fn lemma_encode_accepted(&self) {
        lemma_encode_of_accepted::<ConnectionType>(self.connection_type);
    }

    fn typename() -> (r: &'static str) {
        "ConnectionStatus"
    }

    fn to_bridge(&self) -> (r: Value) {
        let mut b = ObjBuilder::new();
        b.put("connected", Value::Bool(self.connected));
        proof {
            lemma_encode_of::<ConnectionType>(self.connection_type);
        }
        b.put("connectionType", self.connection_type.to_bridge());
        proof {
            assert(self.spec_encode() == ValueView::Obj(b@));
        }
        b.finish()
    }

    fn from_bridge(v: &Value) -> (r: Option<Self>) {
        let mut rd = match ObjReader::start(v) {
            Some(rd) => rd,
            None => {
                return None;
            },
        };
        let f_connected: bool = match rd.req("connected") {
            Some(vv) => match vv {
                Value::Bool(bb) => *bb,
                _ => {
                    return None;
                },
            },
            None => {
                return None;
            },
        };
        let f_connection_type: ConnectionType = match rd.req("connectionType") {
            Some(vv) => match ConnectionType::from_bridge(vv) {
                Some(y) => {
                    proof {
                        lemma_accepts_of::<ConnectionType>(vv@);
                        lemma_encode_of::<ConnectionType>(y);
                    }
                    y
                },
                None => {
                    proof {
                        lemma_accepts_of::<ConnectionType>(vv@);
                    }
                    return None;
                },
            },
            None => {
                return None;
            },
        };
        if !rd.done() {
            return None;
        }
        let x = ConnectionStatus { connected: f_connected, connection_type: f_connection_type };
        proof {
            assert(x.spec_encode() == v@);
            x.lemma_encode_accepted();
        }
        Some(x)
    }
}
impl BridgeDto for ConnectionType {
    open spec fn spec_encode(self) -> ValueView {
        match self {
            ConnectionType::Wifi => ValueView::Str("wifi"@),
            ConnectionType::Cellular => ValueView::Str("cellular"@),
            ConnectionType::NoConnection => ValueView::Str("none"@),
            ConnectionType::Unknown => ValueView::Str("unknown"@),
        }
    }

    open spec fn spec_accepts(m: ValueView) -> bool {
        m matches ValueView::Str(s) && (s == "wifi"@ || s == "cellular"@ || s == "none"@ || s == "unknown"@)
    }

    open spec fn spec_typename() -> Seq<char> {
        "ConnectionType"@
    }

    proof fn lemma_encode_accepted(&self) {
    }

    fn typename() -> (r: &'static str) {
        "ConnectionType"
    }

    fn to_bridge(&self) -> (r: Value) {
        match self {
            ConnectionType::Wifi => Value::Str("wifi".to_owned()),
            ConnectionType::Cellular => Value::Str("cellular".to_owned()),
            ConnectionType::NoConnection => Value::Str("none".to_owned()),
            ConnectionType::Unknown => Value::Str("unknown".to_owned()),
        }
    }

    fn from_bridge(v: &Value) -> (r: Option<Self>) {
        match v {
            Value::Str(s) => {
                if str_eq(s.as_str(), "wifi") {
                    Some(ConnectionType::Wifi)
                } else if str_eq(s.as_str(), "cellular") {
                    Some(ConnectionType::Cellular)
                } else if str_eq(s.as_str(), "none") {
                    Some(ConnectionType::NoConnection)
                } else if str_eq(s.as_str(), "unknown") {
                    Some(ConnectionType::Unknown)
                } else {
                    None
                }
            },
            _ => None,
        }
    }
}
impl Default for ConnectionStatus {
    /// Without better knowledge: not connected, over an unknown connection.
    fn default() -> (r: Self)
        ensures
            r.connected == false,
            r.connection_type == ConnectionType::Unknown,
    {
        ConnectionStatus { connected: false, connection_type: ConnectionType::Unknown }
    }
}

/// The network status change event stream.
pub struct NetworkStatusChange;

impl crate::listener::ListenerEvent for NetworkStatusChange {
    type Payload = ConnectionStatus;

    open spec fn spec_name() -> Seq<char> {
        "networkStatusChange"@
    }

    fn event_name() -> (r: String) {
        "networkStatusChange".to_owned()
    }
}

} // verus!
