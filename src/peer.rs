//! The envelope exchanged between the two instances of the plugin on either
//! side of a connection.
use vstd::prelude::*;
use vstd::string::StringExecFns;
use vstd::utf8::encode_utf8;
use crate::codec::{cstr_text, cstr_to_string};
use crate::desc::Desc;
use crate::json::{find_member, json_quote, json_string, object_text, parse_json_object};

verus! {

/// A message to or from the matching plugin on the peer: the plugin's id and
/// name, a method, and content that the method interprets.
pub struct MsgPeer {
    pub id: String,
    pub name: String,
    pub method: String,
    pub content: String,
}

pub struct MsgPeerView {
    pub id: Seq<char>,
    pub name: Seq<char>,
    pub method: Seq<char>,
    pub content: Seq<char>,
}

impl View for MsgPeer {
    type V = MsgPeerView;

    open spec fn view(&self) -> MsgPeerView {
        MsgPeerView { id: self.id@, name: self.name@, method: self.method@, content: self.content@ }
    }
}

/// The JSON text of a peer envelope.
pub open spec fn peer_json(id: Seq<char>, name: Seq<char>, method: Seq<char>, content: Seq<char>) -> Seq<char> {
    "{\"id\":"@ + json_string(id) + ",\"name\":"@ + json_string(name) + ",\"method\":"@ + json_string(method)
        + ",\"content\":"@ + json_string(content) + "}"@
}

/// The envelope, as sent: its JSON text followed by a null character.
pub open spec fn peer_envelope_text(d: &Desc, method: Seq<char>, content: Seq<char>) -> Seq<char> {
    peer_json(d.id@, d.name@, method, content) + "\0"@
}

/// The peer envelope that the JSON text `s` holds: an object with a string
/// member for each field.
pub open spec fn peer_msg_of_json(s: Seq<char>) -> Option<MsgPeerView> {
    match (object_text(s, "id"@), object_text(s, "name"@), object_text(s, "method"@), object_text(s, "content"@)) {
        (Some(id), Some(name), Some(method), Some(content)) => Some(MsgPeerView { id, name, method, content }),
        _ => None,
    }
}

/// The peer envelope in a null-terminated buffer from the host.
pub open spec fn peer_msg_of_cstr(b: Seq<u8>) -> Option<MsgPeerView> {
    match cstr_text(b) {
        Some(s) => peer_msg_of_json(s),
        None => None,
    }
}

impl MsgPeer {
    /// The envelope from this plugin with the given method and content, as
    /// text ending in a null character.
    pub fn new_string(d: &Desc, method: String, content: String) -> (r: String)
        ensures
            r@ == peer_envelope_text(d, method@, content@),
    {
        let mut s = String::new();
        s.append("{\"id\":");
        s.append(json_quote(d.id.as_str()).as_str());
        s.append(",\"name\":");
        s.append(json_quote(d.name.as_str()).as_str());
        s.append(",\"method\":");
        s.append(json_quote(method.as_str()).as_str());
        s.append(",\"content\":");
        s.append(json_quote(content.as_str()).as_str());
        s.append("}");
        s.append("\0");
        assert(s@ =~= peer_envelope_text(d, method@, content@));
        s
    }

    /// The bytes of the envelope from this plugin, to be handed to the host
    /// as a response.
    pub fn fill_out(d: &Desc, method: String, content: String) -> (r: Vec<u8>)
        ensures
            r@ == encode_utf8(peer_envelope_text(d, method@, content@)),
    {
        let s = MsgPeer::new_string(d, method, content);
        let mut out: Vec<u8> = Vec::new();
        out.extend_from_slice(s.as_str().as_bytes());
        out
    }

    /// Reads an envelope from its JSON text.
    pub fn from_json(s: &str) -> (r: Option<MsgPeer>)
        ensures
            r is Some <==> peer_msg_of_json(s@) is Some,
            r matches Some(m) ==> peer_msg_of_json(s@) == Some(m@),
    {
        let members = match parse_json_object(s) {
            Some(m) => m,
            None => return None,
        };
        let id = find_member(&members, "id");
        let name = find_member(&members, "name");
        let method = find_member(&members, "method");
        let content = find_member(&members, "content");
        match (id, name, method, content) {
            (Some(id), Some(name), Some(method), Some(content)) => Some(MsgPeer { id, name, method, content }),
            _ => None,
        }
    }

    /// Reads an envelope from a null-terminated buffer of the host.
    pub fn from_c_str(msg: &[u8]) -> (r: Option<MsgPeer>)
        ensures
            r is Some <==> peer_msg_of_cstr(msg@) is Some,
            r matches Some(m) ==> peer_msg_of_cstr(msg@) == Some(m@),
    {
        match cstr_to_string(msg) {
            Some(s) => MsgPeer::from_json(s.as_str()),
            None => None,
        }
    }
}

} // verus!
