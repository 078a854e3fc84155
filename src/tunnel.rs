use vstd::prelude::*;

verus! {

/// Observed lifecycle state of a tunnel.
#[allow(non_camel_case_types)]
#[derive(Debug, Clone, Copy, PartialEq, Eq, Structural)]
pub enum TunnelState {
    STOP,
    RUNNING,
}

/// The operation carried by a control message.
#[allow(non_camel_case_types)]
#[derive(Debug, Clone, Copy, PartialEq, Eq, Structural)]
pub enum TunnelOperator {
    VIEW,
    ADD,
    DELETE,
    SYNC,
    STATE,
    EXIT,
}

/// Configuration of one local-to-remote forwarding path plus its observed status.
#[derive(Debug, Clone, PartialEq, Eq)]
pub struct Tunnel {
    pub local_port: u16,
    pub remote_port: u16,
    pub remote_host: String,
    pub ssh_port: u16,
    pub ssh_host: String,
    pub username: String,
    pub password: Option<String>,
    pub private_key: Option<String>,
    pub status: TunnelState,
}

/// Mathematical model of a [`Tunnel`]: strings become character sequences.
pub struct TunnelView {
    pub local_port: u16,
    pub remote_port: u16,
    pub remote_host: Seq<char>,
    pub ssh_port: u16,
    pub ssh_host: Seq<char>,
    pub username: Seq<char>,
    pub password: Option<Seq<char>>,
    pub private_key: Option<Seq<char>>,
    pub status: TunnelState,
}

impl View for Tunnel {
    type V = TunnelView;

    open spec fn view(&self) -> TunnelView {
        TunnelView {
            local_port: self.local_port,
            remote_port: self.remote_port,
            remote_host: self.remote_host@,
            ssh_port: self.ssh_port,
            ssh_host: self.ssh_host@,
            username: self.username@,
            password: self.password.deep_view(),
            private_key: self.private_key.deep_view(),
            status: self.status,
        }
    }
}

/// The same tunnel with its status set to `status`.
pub open spec fn with_status(t: TunnelView, status: TunnelState) -> TunnelView {
    TunnelView { status, ..t }
}

/// Models of a sequence of tunnels, element by element.
pub open spec fn views(s: Seq<Tunnel>) -> Seq<TunnelView> {
    s.map_values(|t: Tunnel| t@)
}

/// A credential is usable when it is present and not empty.
pub open spec fn usable(c: Option<Seq<char>>) -> bool {
    c matches Some(s) && s.len() > 0
}

/// At least one of the tunnel's credentials (password, private key) is usable.
pub open spec fn has_credential(t: TunnelView) -> bool {
    usable(t.password) || usable(t.private_key)
}

/// The wire name of a state.
pub open spec fn state_wire_name(s: TunnelState) -> Seq<char> {
    match s {
        TunnelState::STOP => "stop"@,
        TunnelState::RUNNING => "run"@,
    }
}

/// The state a wire name stands for: `"run"` is running, every other name is stopped.
pub open spec fn state_from_wire_name(s: Seq<char>) -> TunnelState {
    if s == "run"@ {
        TunnelState::RUNNING
    } else {
        TunnelState::STOP
    }
}

/// The operator a wire name stands for, if any.
pub open spec fn operator_from_wire_name(s: Seq<char>) -> Option<TunnelOperator> {
    if s == "view"@ {
        Some(TunnelOperator::VIEW)
    } else if s == "add"@ {
        Some(TunnelOperator::ADD)
    } else if s == "delete"@ {
        Some(TunnelOperator::DELETE)
    } else if s == "sync"@ {
        Some(TunnelOperator::SYNC)
    } else if s == "state"@ {
        Some(TunnelOperator::STATE)
    } else if s == "exit"@ {
        Some(TunnelOperator::EXIT)
    } else {
        None
    }
}

fn is_usable(c: &Option<String>) -> (r: bool)
    ensures
        r == usable(c.deep_view()),
{
    match c {
        Some(s) => !s.as_str().is_empty(),
        None => false,
    }
}

fn copy_opt_string(o: &Option<String>) -> (r: Option<String>)
    ensures
        r.deep_view() == o.deep_view(),
{
    match o {
        Some(s) => Some(s.clone()),
        None => None,
    }
}

impl TunnelState {
    /// Name used for this state on the wire.
    pub fn wire_name(&self) -> (r: &'static str)
        ensures
            r@ == state_wire_name(*self),
    {
        match self {
            TunnelState::STOP => "stop",
            TunnelState::RUNNING => "run",
        }
    }

    /// Reads a state from its wire name; an unknown name reads as stopped.
    pub fn from_wire_name(s: &str) -> (r: TunnelState)
        ensures
            r == state_from_wire_name(s@),
    {
        let given = s.to_owned();
        let run = "run".to_owned();
        if given == run {
            TunnelState::RUNNING
        } else {
            TunnelState::STOP
        }
    }
}

impl TunnelOperator {
    /// Reads an operator from its wire name (`"view"`, `"add"`, `"delete"`,
    /// `"sync"`, `"state"` or `"exit"`).
    pub fn from_wire_name(s: &str) -> (r: Option<TunnelOperator>)
        ensures
            r == operator_from_wire_name(s@),
    {
        let given = s.to_owned();
        if given == "view".to_owned() {
            Some(TunnelOperator::VIEW)
        } else if given == "add".to_owned() {
            Some(TunnelOperator::ADD)
        } else if given == "delete".to_owned() {
            Some(TunnelOperator::DELETE)
        } else if given == "sync".to_owned() {
            Some(TunnelOperator::SYNC)
        } else if given == "state".to_owned() {
            Some(TunnelOperator::STATE)
        } else if given == "exit".to_owned() {
            Some(TunnelOperator::EXIT)
        } else {
            None
        }
    }
}

impl Tunnel {
    /// Whether the tunnel has a usable password or private key.
    pub fn has_credential(&self) -> (r: bool)
        ensures
            r == has_credential(self@),
    {
        is_usable(&self.password) || is_usable(&self.private_key)
    }

    /// A field-by-field copy.
    pub fn duplicate(&self) -> (r: Tunnel)
        ensures
            r@ == self@,
    {
        Tunnel {
            local_port: self.local_port,
            remote_port: self.remote_port,
            remote_host: self.remote_host.clone(),
            ssh_port: self.ssh_port,
            ssh_host: self.ssh_host.clone(),
            username: self.username.clone(),
            password: copy_opt_string(&self.password),
            private_key: copy_opt_string(&self.private_key),
            status: self.status,
        }
    }
}

/// A control message: an operation and, except for view and exit, its target.
pub struct TunnelControl {
    pub tunnel: Option<Tunnel>,
    pub operator: TunnelOperator,
}

} // verus!
