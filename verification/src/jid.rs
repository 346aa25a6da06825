//! WhatsApp addresses (JIDs): a user part, a server, and the device fields
//! that multi-device addresses carry.
use vstd::prelude::*;
use crate::text::{decimal, push_char, push_decimal, push_str, str_eq};

verus! {

/// The server part of an address.
#[derive(Clone, Copy, Debug, PartialEq, Eq, Structural)]
pub enum JidServer {
    Pn,
    Lid,
    Group,
    Broadcast,
    Newsletter,
    Hosted,
    HostedLid,
    Messenger,
    Interop,
    Bot,
    Legacy,
    Call,
}

/// The domain each server is written as.
pub open spec fn server_text(s: JidServer) -> Seq<char> {
    match s {
        JidServer::Pn => "s.whatsapp.net"@,
        JidServer::Lid => "lid"@,
        JidServer::Group => "g.us"@,
        JidServer::Broadcast => "broadcast"@,
        JidServer::Newsletter => "newsletter"@,
        JidServer::Hosted => "hosted"@,
        JidServer::HostedLid => "hosted.lid"@,
        JidServer::Messenger => "msgr"@,
        JidServer::Interop => "interop"@,
        JidServer::Bot => "bot"@,
        JidServer::Legacy => "c.us"@,
        JidServer::Call => "call"@,
    }
}

/// The server written as `name`, if any.
pub open spec fn server_of_text(name: Seq<char>) -> Option<JidServer> {
    if name == "s.whatsapp.net"@ { Some(JidServer::Pn) }
    else if name == "lid"@ { Some(JidServer::Lid) }
    else if name == "g.us"@ { Some(JidServer::Group) }
    else if name == "broadcast"@ { Some(JidServer::Broadcast) }
    else if name == "newsletter"@ { Some(JidServer::Newsletter) }
    else if name == "hosted"@ { Some(JidServer::Hosted) }
    else if name == "hosted.lid"@ { Some(JidServer::HostedLid) }
    else if name == "msgr"@ { Some(JidServer::Messenger) }
    else if name == "interop"@ { Some(JidServer::Interop) }
    else if name == "bot"@ { Some(JidServer::Bot) }
    else if name == "c.us"@ { Some(JidServer::Legacy) }
    else if name == "call"@ { Some(JidServer::Call) }
    else { None }
}

impl JidServer {
    /// The domain this server is written as.
    pub fn as_str(&self) -> (s: &'static str)
        ensures
            s@ == server_text(*self),
    {
        match self {
            JidServer::Pn => "s.whatsapp.net",
            JidServer::Lid => "lid",
            JidServer::Group => "g.us",
            JidServer::Broadcast => "broadcast",
            JidServer::Newsletter => "newsletter",
            JidServer::Hosted => "hosted",
            JidServer::HostedLid => "hosted.lid",
            JidServer::Messenger => "msgr",
            JidServer::Interop => "interop",
            JidServer::Bot => "bot",
            JidServer::Legacy => "c.us",
            JidServer::Call => "call",
        }
    }

    /// The server written as `name`; `None` for a domain no server uses.
    pub fn parse_known(name: &str) -> (r: Option<JidServer>)
        ensures
            r == server_of_text(name@),
    {
        if str_eq(name, "s.whatsapp.net") { Some(JidServer::Pn) }
        else if str_eq(name, "lid") { Some(JidServer::Lid) }
        else if str_eq(name, "g.us") { Some(JidServer::Group) }
        else if str_eq(name, "broadcast") { Some(JidServer::Broadcast) }
        else if str_eq(name, "newsletter") { Some(JidServer::Newsletter) }
        else if str_eq(name, "hosted") { Some(JidServer::Hosted) }
        else if str_eq(name, "hosted.lid") { Some(JidServer::HostedLid) }
        else if str_eq(name, "msgr") { Some(JidServer::Messenger) }
        else if str_eq(name, "interop") { Some(JidServer::Interop) }
        else if str_eq(name, "bot") { Some(JidServer::Bot) }
        else if str_eq(name, "c.us") { Some(JidServer::Legacy) }
        else if str_eq(name, "call") { Some(JidServer::Call) }
        else { None }
    }
}

/// Reading a server's domain back gives the server.
pub proof fn lemma_server_text_round_trip(s: JidServer)
    ensures
        server_of_text(server_text(s)) == Some(s),
{
    reveal_strlit("s.whatsapp.net");
    reveal_strlit("lid");
    reveal_strlit("g.us");
    reveal_strlit("broadcast");
    reveal_strlit("newsletter");
    reveal_strlit("hosted");
    reveal_strlit("hosted.lid");
    reveal_strlit("msgr");
    reveal_strlit("interop");
    reveal_strlit("bot");
    reveal_strlit("c.us");
    reveal_strlit("call");
    assert("s.whatsapp.net"@.len() == 14);
    assert("lid"@.len() == 3);
    assert("g.us"@.len() == 4);
    assert("broadcast"@.len() == 9);
    assert("newsletter"@.len() == 10);
    assert("hosted"@.len() == 6);
    assert("hosted.lid"@.len() == 10);
    assert("msgr"@.len() == 4);
    assert("interop"@.len() == 7);
    assert("bot"@.len() == 3);
    assert("c.us"@.len() == 4);
    assert("call"@.len() == 4);
    assert("lid"@[0] != "bot"@[0]);
    assert("g.us"@[0] != "msgr"@[0]);
    assert("g.us"@[0] != "c.us"@[0]);
    assert("g.us"@[0] != "call"@[0]);
    assert("msgr"@[0] != "c.us"@[0]);
    assert("msgr"@[0] != "call"@[0]);
    assert("c.us"@[1] != "call"@[1]);
    assert("newsletter"@[0] != "hosted.lid"@[0]);
    match s {
        JidServer::Pn => { assert(server_of_text(server_text(s)) == Some(s)); },
        JidServer::Lid => { assert(server_of_text(server_text(s)) == Some(s)); },
        JidServer::Group => { assert(server_of_text(server_text(s)) == Some(s)); },
        JidServer::Broadcast => { assert(server_of_text(server_text(s)) == Some(s)); },
        JidServer::Newsletter => { assert(server_of_text(server_text(s)) == Some(s)); },
        JidServer::Hosted => { assert(server_of_text(server_text(s)) == Some(s)); },
        JidServer::HostedLid => { assert(server_of_text(server_text(s)) == Some(s)); },
        JidServer::Messenger => { assert(server_of_text(server_text(s)) == Some(s)); },
        JidServer::Interop => { assert(server_of_text(server_text(s)) == Some(s)); },
        JidServer::Bot => { assert(server_of_text(server_text(s)) == Some(s)); },
        JidServer::Legacy => { assert(server_of_text(server_text(s)) == Some(s)); },
        JidServer::Call => { assert(server_of_text(server_text(s)) == Some(s)); },
    }
}

/// Whether an address on this server shows its agent: all but the
/// phone-number and LID servers and their hosted forms.
pub open spec fn renders_agent(server: JidServer) -> bool {
    !(server == JidServer::Pn || server == JidServer::Lid || server == JidServer::Hosted
        || server == JidServer::HostedLid)
}

/// The text form of an address: `<user>[.<agent>][:<device>]@<server>`,
/// the agent only when non-zero and shown on the server, the device only
/// when non-zero; an address without a user is its server alone.
pub open spec fn jid_display(user: Seq<char>, server: JidServer, agent: u8, device: u16) -> Seq<char> {
    if user.len() == 0 {
        server_text(server)
    } else {
        user + (if agent > 0 && renders_agent(server) { seq!['.'] + decimal(agent as nat) } else { Seq::empty() })
            + (if device > 0 { seq![':'] + decimal(device as nat) } else { Seq::empty() }) + seq!['@']
            + server_text(server)
    }
}

/// Renders an address in the text form `jid_display` states, as the
/// protocol library's address type displays it.
fn render_jid(user: &str, server: JidServer, agent: u8, device: u16) -> (r: String)
    ensures
        r@ == jid_display(user@, server, agent, device),
{
    let server_name = server.as_str();
    if user.unicode_len() == 0 {
        let out = String::from_str(server_name);
        return out;
    }
    let mut out = String::from_str(user);
    let ghost after_user = out@;
    let shows_agent = match server {
        JidServer::Pn | JidServer::Lid | JidServer::Hosted | JidServer::HostedLid => false,
        _ => true,
    };
    if agent > 0 && shows_agent {
        push_char(&mut out, '.');
        push_decimal(&mut out, agent as u64);
    }
    let ghost after_agent = out@;
    if device > 0 {
        push_char(&mut out, ':');
        push_decimal(&mut out, device as u64);
    }
    let ghost after_device = out@;
    push_char(&mut out, '@');
    push_str(&mut out, server_name);
    assert(after_agent =~= user@ + (if agent > 0 && renders_agent(server) { seq!['.'] + decimal(agent as nat) } else { Seq::empty() }));
    assert(after_device =~= after_agent + (if device > 0 { seq![':'] + decimal(device as nat) } else { Seq::empty() }));
    assert(out@ =~= after_device + seq!['@'] + server_text(server));
    out
}

/// Why an address could not be built.
#[derive(Debug, PartialEq, Eq)]
pub enum JidError {
    /// The server part names no known server.
    UnknownServer(String),
}

/// A WhatsApp address.
#[derive(Clone, Debug)]
pub struct JID {
    pub user: String,
    pub server: JidServer,
    pub agent: u8,
    pub device: u16,
    pub integrator: u16,
}

/// The value of an address.
pub struct JidView {
    pub user: Seq<char>,
    pub server: JidServer,
    pub agent: u8,
    pub device: u16,
    pub integrator: u16,
}

impl View for JID {
    type V = JidView;

    open spec fn view(&self) -> JidView {
        JidView {
            user: self.user@,
            server: self.server,
            agent: self.agent,
            device: self.device,
            integrator: self.integrator,
        }
    }
}

/// An address without agent and device.
pub open spec fn non_ad(j: JidView) -> JidView {
    JidView { user: j.user, server: j.server, agent: 0, device: 0, integrator: j.integrator }
}

/// The value of an optional address.
pub open spec fn opt_jid_view(j: Option<JID>) -> Option<JidView> {
    match j {
        Some(j) => Some(j@),
        None => None,
    }
}

impl JID {
    /// A copy of the address.
    pub fn duplicate(&self) -> (r: JID)
        ensures
            r@ == self@,
    {
        JID {
            user: self.user.clone(),
            server: self.server,
            agent: self.agent,
            device: self.device,
            integrator: self.integrator,
        }
    }

    /// A copy of an optional address.
    pub fn duplicate_opt(j: &Option<JID>) -> (r: Option<JID>)
        ensures
            opt_jid_view(r) == opt_jid_view(*j),
    {
        match j {
            Some(j) => Some(j.duplicate()),
            None => None,
        }
    }

    /// Whether the address is a phone-number address.
    pub fn is_pn(&self) -> (r: bool)
        ensures
            r == (self.server == JidServer::Pn),
    {
        match self.server {
            JidServer::Pn => true,
            _ => false,
        }
    }

    /// Whether the address is a LID address.
    pub fn is_lid(&self) -> (r: bool)
        ensures
            r == (self.server == JidServer::Lid),
    {
        match self.server {
            JidServer::Lid => true,
            _ => false,
        }
    }

    /// The address without its agent and device.
    pub fn to_non_ad(&self) -> (r: JID)
        ensures
            r@ == non_ad(self@),
    {
        JID { user: self.user.clone(), server: self.server, agent: 0, device: 0, integrator: self.integrator }
    }

    /// An address from a user and a server domain; an unknown domain is
    /// refused.
    pub fn new(user: String, server: String) -> (r: Result<JID, JidError>)
        ensures
            match server_of_text(server@) {
                Some(s) => r matches Ok(j) && j.user@ == user@ && j.server == s && j.agent == 0
                    && j.device == 0 && j.integrator == 0,
                None => r matches Err(JidError::UnknownServer(name)) && name@ == server@,
            },
    {
        match JidServer::parse_known(server.as_str()) {
            Some(s) => Ok(JID { user, server: s, agent: 0, device: 0, integrator: 0 }),
            None => Err(JidError::UnknownServer(server)),
        }
    }

    /// The user part.
    pub fn user(&self) -> (r: String)
        ensures
            r@ == self.user@,
    {
        self.user.clone()
    }

    /// The server domain.
    pub fn server(&self) -> (r: String)
        ensures
            r@ == server_text(self.server),
    {
        String::from_str(self.server.as_str())
    }

    /// `JID(user='<user>', server='<server>')`.
    pub fn __repr__(&self) -> (r: String)
        ensures
            r@ == "JID(user='"@ + self.user@ + "', server='"@ + server_text(self.server) + seq!['\'', ')'],
    {
        let mut out = String::from_str("JID(user='");
        push_str(&mut out, self.user.as_str());
        push_str(&mut out, "', server='");
        push_str(&mut out, self.server.as_str());
        push_char(&mut out, '\'');
        push_char(&mut out, ')');
        assert(out@ =~= "JID(user='"@ + self.user@ + "', server='"@ + server_text(self.server) + seq!['\'', ')']);
        out
    }

    /// The address in text form.
    pub fn to_string(&self) -> (r: String)
        ensures
            r@ == jid_display(self.user@, self.server, self.agent, self.device),
    {
        render_jid(self.user.as_str(), self.server, self.agent, self.device)
    }

    /// Whether two addresses name the same user (the user parts are equal).
    pub fn same_user(a: &JID, b: &JID) -> (r: bool)
        ensures
            r == (a.user@ == b.user@),
    {
        a.user == b.user
    }
}

/// A device shows in the text form of an address on every server: it adds
/// `:` and the device number right before the `@`, and changes nothing else.
pub proof fn lemma_device_shown_before_at(user: Seq<char>, server: JidServer, agent: u8, device: u16)
    requires
        user.len() > 0,
        device > 0,
    ensures
        exists|p: Seq<char>| #![trigger p + seq!['@']]
            jid_display(user, server, agent, 0) == p + seq!['@'] + server_text(server)
            && jid_display(user, server, agent, device) == p + seq![':'] + decimal(device as nat) + seq!['@']
                + server_text(server),
{
    let p = user + (if agent > 0 && renders_agent(server) { seq!['.'] + decimal(agent as nat) } else { Seq::empty() });
    assert(jid_display(user, server, agent, 0) =~= p + seq!['@'] + server_text(server));
    assert(jid_display(user, server, agent, device) =~= p + seq![':'] + decimal(device as nat) + seq!['@']
        + server_text(server));
}

/// Without an agent shown, an address with a device reads
/// `<user>:<device>@<server>`.
pub proof fn lemma_device_address_text(user: Seq<char>, server: JidServer, agent: u8, device: u16)
    requires
        user.len() > 0,
        device > 0,
        agent == 0 || !renders_agent(server),
    ensures
        jid_display(user, server, agent, device) == user + seq![':'] + decimal(device as nat) + seq!['@']
            + server_text(server),
{
    assert(jid_display(user, server, agent, device) =~= user + seq![':'] + decimal(device as nat) + seq!['@']
        + server_text(server));
}

} // verus!
