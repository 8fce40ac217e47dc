//! The owner of the one session to the server.
//!
//! A `Connection` holds the settings it was made with and at most one live
//! session. It never opens a stream itself: it says when a connect attempt is
//! due and with which settings, and records how the attempt went.

use vstd::prelude::*;
use crate::error::{connect_message, ConnectFailure};
use crate::text::{decimal, owned, push_char, push_decimal};

verus! {

/// The settings of the server to talk to.
#[derive(Clone, Debug, PartialEq, Eq)]
pub struct Args {
    pub host: String,
    pub port: u16,
    pub user: String,
    pub password: String,
    pub database: Option<String>,
    pub no_trust_cert: bool,
}

pub struct ArgsView {
    pub host: Seq<char>,
    pub port: u16,
    pub user: Seq<char>,
    pub password: Seq<char>,
    pub database: Option<Seq<char>>,
    pub no_trust_cert: bool,
}

/// The view of an optional string.
pub open spec fn opt_view(s: Option<String>) -> Option<Seq<char>> {
    match s {
        Some(t) => Some(t@),
        None => None,
    }
}

impl View for Args {
    type V = ArgsView;

    open spec fn view(&self) -> ArgsView {
        ArgsView {
            host: self.host@,
            port: self.port,
            user: self.user@,
            password: self.password@,
            database: opt_view(self.database),
            no_trust_cert: self.no_trust_cert,
        }
    }
}

/// What a connect attempt is made with.
#[derive(Clone, Debug, PartialEq, Eq)]
pub struct ConnectPlan {
    pub host: String,
    pub port: u16,
    pub user: String,
    pub password: String,
    /// Whether the server's certificate is accepted without validation.
    pub trust_cert: bool,
    /// The database to start in, if any.
    pub database: Option<String>,
    /// `host:port`, as shown in diagnostics and used to open the stream.
    pub address: String,
}

pub struct ConnectPlanView {
    pub host: Seq<char>,
    pub port: u16,
    pub user: Seq<char>,
    pub password: Seq<char>,
    pub trust_cert: bool,
    pub database: Option<Seq<char>>,
    pub address: Seq<char>,
}

impl View for ConnectPlan {
    type V = ConnectPlanView;

    open spec fn view(&self) -> ConnectPlanView {
        ConnectPlanView {
            host: self.host@,
            port: self.port,
            user: self.user@,
            password: self.password@,
            trust_cert: self.trust_cert,
            database: opt_view(self.database),
            address: self.address@,
        }
    }
}

/// The address of a server: host, a colon, the port in decimal.
pub open spec fn address_of(host: Seq<char>, port: u16) -> Seq<char> {
    host + seq![':'] + decimal(port as nat)
}

/// The connect plan that follows from the settings: the certificate is trusted
/// unless the settings say otherwise, and the default database is passed on
/// only when one is set.
pub open spec fn plan_of(args: ArgsView) -> ConnectPlanView {
    ConnectPlanView {
        host: args.host,
        port: args.port,
        user: args.user,
        password: args.password,
        trust_cert: !args.no_trust_cert,
        database: args.database,
        address: address_of(args.host, args.port),
    }
}

fn clone_opt(s: &Option<String>) -> (r: Option<String>)
    ensures
        opt_view(r) == opt_view(*s),
{
    match s {
        Some(t) => Some(owned(t.as_str())),
        None => None,
    }
}

/// Zero or one live session of type `S`, and the settings to make one.
pub struct Connection<S> {
    args: Args,
    client: Option<S>,
}

impl<S> Connection<S> {
    /// The settings this connection was made with.
    pub closed spec fn settings(&self) -> Args {
        self.args
    }

    /// The live session, if there is one.
    pub closed spec fn session(&self) -> Option<S> {
        self.client
    }

    /// A connection without a session.
    pub fn new(args: Args) -> (r: Self)
        ensures
            r.settings() == args,
            r.session() is None,
    {
        Connection { args, client: None }
    }

    /// Whether a session is held.
    pub fn is_connected(&self) -> (r: bool)
        ensures
            r == self.session() is Some,
    {
        self.client.is_some()
    }

    /// What the next connect attempt is made with.
    pub fn connect_plan(&self) -> (r: ConnectPlan)
        ensures
            r@ == plan_of(self.settings()@),
    {
        let mut address = owned(self.args.host.as_str());
        push_char(&mut address, ':');
        push_decimal(&mut address, self.args.port as u64);
        assert(address@ =~= address_of(self.args.host@, self.args.port));
        ConnectPlan {
            host: owned(self.args.host.as_str()),
            port: self.args.port,
            user: owned(self.args.user.as_str()),
            password: owned(self.args.password.as_str()),
            trust_cert: !self.args.no_trust_cert,
            database: clone_opt(&self.args.database),
            address,
        }
    }

    /// The session if one is held; otherwise the plan of the connect attempt
    /// that has to be made first. Nothing changes either way.
    pub fn get_client(&mut self) -> (r: Result<&mut S, ConnectPlan>)
        ensures
            r is Ok <==> old(self).session() is Some,
            final(self).settings() == old(self).settings(),
            match r {
                Ok(s) => *s == old(self).session()->0 && final(self).session() == Some(*final(s)),
                Err(plan) => final(self).session() is None && plan@ == plan_of(
                    old(self).settings()@,
                ),
            },
    {
        if self.client.is_none() {
            return Err(self.connect_plan());
        }
        Ok(self.client.as_mut().unwrap())
    }

    /// Records how a connect attempt went. A new session replaces whatever was
    /// held; a failure leaves the connection as it was and yields the text to
    /// report.
    pub fn connect(&mut self, outcome: Result<S, ConnectFailure>) -> (r: Result<(), String>)
        ensures
            final(self).settings() == old(self).settings(),
            match outcome {
                Ok(s) => r is Ok && final(self).session() == Some(s),
                Err(f) => r is Err && r->Err_0@ == connect_message(f@) && final(self).session()
                    == old(self).session(),
            },
    {
        match outcome {
            Ok(s) => {
                self.client = Some(s);
                Ok(())
            },
            Err(f) => Err(f.message()),
        }
    }

    /// Discards the session, healthy or not, and gives the plan of the connect
    /// attempt that replaces it.
    pub fn reconnect(&mut self) -> (r: ConnectPlan)
        ensures
            final(self).settings() == old(self).settings(),
            final(self).session() is None,
            r@ == plan_of(old(self).settings()@),
    {
        self.client = None;
        self.connect_plan()
    }
}

} // verus!
