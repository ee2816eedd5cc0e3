use vstd::prelude::*;
use crate::text::same_text;

verus! {

/// Transport protocol used for a benchmark run.
#[derive(Copy, Clone, PartialEq, Eq, Debug, Structural)]
pub enum Protocol {
    UDP,
    TCP,
}

/// How a sender paces its messages: freely, or waiting for an acknowledgement.
#[derive(Copy, Clone, PartialEq, Eq, Debug, Structural)]
pub enum Mechanism {
    Stream,
    Sync,
}

/// Which end of a transfer a process plays.
#[derive(Copy, Clone, PartialEq, Eq, Debug, Structural)]
pub enum Role {
    Client,
    Server,
}

/// "Unknown protocol: "
pub open spec fn unknown_protocol_prefix() -> Seq<char> {
    seq!['U', 'n', 'k', 'n', 'o', 'w', 'n', ' ', 'p', 'r', 'o', 't', 'o', 'c', 'o', 'l', ':', ' ']
}

/// "Unknown mechanism: "
pub open spec fn unknown_mechanism_prefix() -> Seq<char> {
    seq!['U', 'n', 'k', 'n', 'o', 'w', 'n', ' ', 'm', 'e', 'c', 'h', 'a', 'n', 'i', 's', 'm', ':', ' ']
}

/// "Unknown role: "
pub open spec fn unknown_role_prefix() -> Seq<char> {
    seq!['U', 'n', 'k', 'n', 'o', 'w', 'n', ' ', 'r', 'o', 'l', 'e', ':', ' ']
}

/// The error text for an unrecognised name: `prefix` followed by the name.
fn unknown_name(prefix: &str, s: &str) -> (r: String)
    ensures
        r@ == prefix@ + s@,
{
    let mut out = String::from_str(prefix);
    out.append(s);
    out
}

impl Protocol {
    /// The lower-case name under which the protocol is printed and parsed.
    pub open spec fn label(self) -> Seq<char> {
        match self {
            Protocol::UDP => seq!['u', 'd', 'p'],
            Protocol::TCP => seq!['t', 'c', 'p'],
        }
    }

    /// The protocol whose lower-case name is `s`, if any.
    pub open spec fn from_label(s: Seq<char>) -> Option<Protocol> {
        if s == seq!['u', 'd', 'p'] {
            Some(Protocol::UDP)
        } else if s == seq!['t', 'c', 'p'] {
            Some(Protocol::TCP)
        } else {
            None
        }
    }

    /// The protocol whose upper-case name is `s`, if any.
    pub open spec fn from_upper_label(s: Seq<char>) -> Option<Protocol> {
        if s == seq!['U', 'D', 'P'] {
            Some(Protocol::UDP)
        } else if s == seq!['T', 'C', 'P'] {
            Some(Protocol::TCP)
        } else {
            None
        }
    }

    /// The lower-case name of the protocol.
    pub fn as_str(&self) -> (r: &'static str)
        ensures
            r@ == self.label(),
    {
        match self {
            Protocol::UDP => {
                proof {
                    reveal_strlit("udp");
                }
                assert("udp"@ =~= seq!['u', 'd', 'p']);
                "udp"
            },
            Protocol::TCP => {
                proof {
                    reveal_strlit("tcp");
                }
                assert("tcp"@ =~= seq!['t', 'c', 'p']);
                "tcp"
            },
        }
    }

    /// The printed form of the protocol: its lower-case name.
    pub fn to_string(&self) -> (r: String)
        ensures
            r@ == self.label(),
    {
        String::from_str(self.as_str())
    }

    /// Reads a protocol from its lower-case name.
    pub fn parse(s: &str) -> (r: Result<Protocol, String>)
        ensures
            r matches Ok(p) ==> Protocol::from_label(s@) == Some(p),
            r is Err <==> Protocol::from_label(s@) is None,
            r matches Err(e) ==> e@ == unknown_protocol_prefix() + s@,
    {
        proof {
            reveal_strlit("udp");
            reveal_strlit("tcp");
            reveal_strlit("Unknown protocol: ");
        }
        assert("udp"@ =~= seq!['u', 'd', 'p']);
        assert("tcp"@ =~= seq!['t', 'c', 'p']);
        assert("Unknown protocol: "@ =~= unknown_protocol_prefix());
        if same_text(s, "udp") {
            Ok(Protocol::UDP)
        } else if same_text(s, "tcp") {
            Ok(Protocol::TCP)
        } else {
            Err(unknown_name("Unknown protocol: ", s))
        }
    }

    /// Reads a protocol from its upper-case name ("UDP" or "TCP").
    pub fn from_upper_name(s: &str) -> (r: Option<Protocol>)
        ensures
            r == Protocol::from_upper_label(s@),
    {
        proof {
            reveal_strlit("UDP");
            reveal_strlit("TCP");
        }
        assert("UDP"@ =~= seq!['U', 'D', 'P']);
        assert("TCP"@ =~= seq!['T', 'C', 'P']);
        if same_text(s, "UDP") {
            Some(Protocol::UDP)
        } else if same_text(s, "TCP") {
            Some(Protocol::TCP)
        } else {
            None
        }
    }
}

impl std::str::FromStr for Protocol {
    type Err = String;

    fn from_str(s: &str) -> (r: Result<Protocol, String>)
        ensures
            r matches Ok(v) ==> Protocol::from_label(s@) == Some(v),
            r is Err <==> Protocol::from_label(s@) is None,
            r matches Err(e) ==> e@ == unknown_protocol_prefix() + s@,
    {
        Protocol::parse(s)
    }
}

impl Mechanism {
    /// The lower-case name under which the mechanism is printed and parsed.
    pub open spec fn label(self) -> Seq<char> {
        match self {
            Mechanism::Stream => seq!['s', 't', 'r', 'e', 'a', 'm'],
            Mechanism::Sync => seq!['s', 'y', 'n', 'c'],
        }
    }

    /// The mechanism whose name is `s`, if any.
    pub open spec fn from_label(s: Seq<char>) -> Option<Mechanism> {
        if s == seq!['s', 't', 'r', 'e', 'a', 'm'] {
            Some(Mechanism::Stream)
        } else if s == seq!['s', 'y', 'n', 'c'] {
            Some(Mechanism::Sync)
        } else {
            None
        }
    }

    /// The lower-case name of the mechanism.
    pub fn as_str(&self) -> (r: &'static str)
        ensures
            r@ == self.label(),
    {
        match self {
            Mechanism::Stream => {
                proof {
                    reveal_strlit("stream");
                }
                assert("stream"@ =~= seq!['s', 't', 'r', 'e', 'a', 'm']);
                "stream"
            },
            Mechanism::Sync => {
                proof {
                    reveal_strlit("sync");
                }
                assert("sync"@ =~= seq!['s', 'y', 'n', 'c']);
                "sync"
            },
        }
    }

    /// The printed form of the mechanism: its lower-case name.
    pub fn to_string(&self) -> (r: String)
        ensures
            r@ == self.label(),
    {
        String::from_str(self.as_str())
    }

    /// Reads a mechanism from its lower-case name.
    pub fn parse(s: &str) -> (r: Result<Mechanism, String>)
        ensures
            r matches Ok(m) ==> Mechanism::from_label(s@) == Some(m),
            r is Err <==> Mechanism::from_label(s@) is None,
            r matches Err(e) ==> e@ == unknown_mechanism_prefix() + s@,
    {
        proof {
            reveal_strlit("stream");
            reveal_strlit("sync");
            reveal_strlit("Unknown mechanism: ");
        }
        assert("stream"@ =~= seq!['s', 't', 'r', 'e', 'a', 'm']);
        assert("sync"@ =~= seq!['s', 'y', 'n', 'c']);
        assert("Unknown mechanism: "@ =~= unknown_mechanism_prefix());
        if same_text(s, "stream") {
            Ok(Mechanism::Stream)
        } else if same_text(s, "sync") {
            Ok(Mechanism::Sync)
        } else {
            Err(unknown_name("Unknown mechanism: ", s))
        }
    }
}

impl std::str::FromStr for Mechanism {
    type Err = String;

    fn from_str(s: &str) -> (r: Result<Mechanism, String>)
        ensures
            r matches Ok(v) ==> Mechanism::from_label(s@) == Some(v),
            r is Err <==> Mechanism::from_label(s@) is None,
            r matches Err(e) ==> e@ == unknown_mechanism_prefix() + s@,
    {
        Mechanism::parse(s)
    }
}

impl Role {
    /// The lower-case name under which the role is printed and parsed.
    pub open spec fn label(self) -> Seq<char> {
        match self {
            Role::Client => seq!['c', 'l', 'i', 'e', 'n', 't'],
            Role::Server => seq!['s', 'e', 'r', 'v', 'e', 'r'],
        }
    }

    /// The role whose name is `s`, if any.
    pub open spec fn from_label(s: Seq<char>) -> Option<Role> {
        if s == seq!['c', 'l', 'i', 'e', 'n', 't'] {
            Some(Role::Client)
        } else if s == seq!['s', 'e', 'r', 'v', 'e', 'r'] {
            Some(Role::Server)
        } else {
            None
        }
    }

    /// The lower-case name of the role.
    pub fn as_str(&self) -> (r: &'static str)
        ensures
            r@ == self.label(),
    {
        match self {
            Role::Client => {
                proof {
                    reveal_strlit("client");
                }
                assert("client"@ =~= seq!['c', 'l', 'i', 'e', 'n', 't']);
                "client"
            },
            Role::Server => {
                proof {
                    reveal_strlit("server");
                }
                assert("server"@ =~= seq!['s', 'e', 'r', 'v', 'e', 'r']);
                "server"
            },
        }
    }

    /// The printed form of the role: its lower-case name.
    pub fn to_string(&self) -> (r: String)
        ensures
            r@ == self.label(),
    {
        String::from_str(self.as_str())
    }

    /// Reads a role from its lower-case name.
    pub fn parse(s: &str) -> (r: Result<Role, String>)
        ensures
            r matches Ok(role) ==> Role::from_label(s@) == Some(role),
            r is Err <==> Role::from_label(s@) is None,
            r matches Err(e) ==> e@ == unknown_role_prefix() + s@,
    {
        proof {
            reveal_strlit("client");
            reveal_strlit("server");
            reveal_strlit("Unknown role: ");
        }
        assert("client"@ =~= seq!['c', 'l', 'i', 'e', 'n', 't']);
        assert("server"@ =~= seq!['s', 'e', 'r', 'v', 'e', 'r']);
        assert("Unknown role: "@ =~= unknown_role_prefix());
        if same_text(s, "client") {
            Ok(Role::Client)
        } else if same_text(s, "server") {
            Ok(Role::Server)
        } else {
            Err(unknown_name("Unknown role: ", s))
        }
    }
}

impl std::str::FromStr for Role {
    type Err = String;

    fn from_str(s: &str) -> (r: Result<Role, String>)
        ensures
            r matches Ok(v) ==> Role::from_label(s@) == Some(v),
            r is Err <==> Role::from_label(s@) is None,
            r matches Err(e) ==> e@ == unknown_role_prefix() + s@,
    {
        Role::parse(s)
    }
}

/// Reading back the printed name of a protocol gives the same protocol, and
/// no other text names it.
pub proof fn protocol_name_round_trip(p: Protocol, s: Seq<char>)
    ensures
        Protocol::from_label(p.label()) == Some(p),
        Protocol::from_label(s) == Some(p) <==> s == p.label(),
{
}

/// Reading back the printed name of a mechanism gives the same mechanism, and
/// no other text names it.
pub proof fn mechanism_name_round_trip(m: Mechanism, s: Seq<char>)
    ensures
        Mechanism::from_label(m.label()) == Some(m),
        Mechanism::from_label(s) == Some(m) <==> s == m.label(),
{
}

/// Reading back the printed name of a role gives the same role, and no other
/// text names it.
pub proof fn role_name_round_trip(role: Role, s: Seq<char>)
    ensures
        Role::from_label(role.label()) == Some(role),
        Role::from_label(s) == Some(role) <==> s == role.label(),
{
}

} // verus!
