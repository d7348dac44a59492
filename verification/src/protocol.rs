//! Transport protocol selection.
//!
//! A [`Protocol`] is a pure enumeration of the transport kinds a server can
//! bind or a client can connect with. Resolution consults the per-protocol
//! sections of the external configuration and yields plain addressing
//! descriptors ([`Binder`], [`Client`]); the surrounding application turns
//! those into live sockets. Build-time transport features are modeled as a
//! runtime capability registry ([`Features`]): an absent capability plays
//! the role of a compiled-out variant.

use vstd::prelude::*;

verus! {

/// A selectable transport kind. `Unset` is a sentinel meaning
/// "unselected / unusable": it never yields a binder or a client, and its
/// string form `"none"` is excluded from the parseable set.
#[derive(Clone, Copy, Debug, PartialEq, Eq, Structural)]
pub enum Protocol {
    Tcp,
    Unset,
}

/// Addressing of the stream-socket transport: the host and port a server
/// binds or a client connects to.
#[derive(Clone, Debug)]
pub struct TcpConfig {
    pub host: String,
    pub port: u16,
}

/// The external configuration consulted at resolution time: one optional
/// section per supported protocol. An absent section is a normal state,
/// not an error.
#[derive(Clone, Debug)]
pub struct Config {
    pub tcp: Option<TcpConfig>,
}

/// The transport capabilities a build provides. Feature-gated variants are
/// modeled as this runtime registry: an absent capability plays the same
/// role as a compiled-out variant.
#[derive(Clone, Copy, Debug, PartialEq, Eq, Structural)]
pub struct Features {
    /// Whether the build can bind the stream transport for a server.
    pub tcp_binder: bool,
    /// Whether the build can connect the stream transport as a client.
    pub tcp_client: bool,
}

/// A server-side binder: the addressing one accepted transport listens on.
#[derive(Clone, Debug)]
pub struct Binder {
    pub host: String,
    pub port: u16,
}

/// A client connector: the addressing one transport connects to.
#[derive(Clone, Debug)]
pub struct Client {
    pub host: String,
    pub port: u16,
}

/// Failure to resolve a client.
#[derive(Clone, Copy, Debug, PartialEq, Eq, Structural)]
pub enum ProtocolError {
    /// No protocol was selected: the `Unset` sentinel cannot connect.
    MissingProtocol,
    /// The selected protocol's configuration section is absent.
    MissingTcpConfig,
}

/// The canonical name of a protocol: the string form it prints as.
pub open spec fn spec_name(p: Protocol) -> Seq<char> {
    match p {
        Protocol::Tcp => "tcp"@,
        Protocol::Unset => "none"@,
    }
}

/// The descriptive message of a resolution error.
pub open spec fn spec_error_message(e: ProtocolError) -> Seq<char> {
    match e {
        ProtocolError::MissingProtocol => "cannot build client: missing protocol"@,
        ProtocolError::MissingTcpConfig => "cannot build tcp client: missing tcp config"@,
    }
}

/// Whether a string names the stream transport: exactly `"tcp"`, and its
/// case-insensitive spellings when asked to ignore case.
pub open spec fn spec_is_tcp_name(s: Seq<char>, ignore_case: bool) -> bool {
    if ignore_case {
        s.len() == 3 && (s[0] == 't' || s[0] == 'T') && (s[1] == 'c' || s[1] == 'C') && (s[2]
            == 'p' || s[2] == 'P')
    } else {
        s == "tcp"@
    }
}

/// The addressing a protocol resolves to for binding, if any: a binder
/// exists exactly when the binder capability is present and the protocol's
/// configuration section is too. `Unset` never yields a binder.
pub open spec fn spec_binder_for(c: Config, f: Features, p: Protocol) -> Option<(Seq<char>, u16)> {
    match p {
        Protocol::Tcp => match c.tcp {
            Option::Some(tcp) => if f.tcp_binder {
                Option::Some((tcp.host@, tcp.port))
            } else {
                Option::None
            },
            Option::None => Option::None,
        },
        Protocol::Unset => Option::None,
    }
}

/// The binder list contributed by one resolved protocol.
pub open spec fn opt_binder(b: Option<(Seq<char>, u16)>) -> Seq<(Seq<char>, u16)> {
    match b {
        Option::Some(addr) => seq![addr],
        Option::None => seq![],
    }
}

/// The binders a requested protocol list resolves to: one per requested
/// protocol whose addressing resolves, in request order, silently dropping
/// the rest.
pub open spec fn spec_to_binders(c: Config, f: Features, ps: Seq<Protocol>) -> Seq<
    (Seq<char>, u16),
>
    decreases ps.len(),
{
    if ps.len() == 0 {
        Seq::empty()
    } else {
        spec_to_binders(c, f, ps.drop_last()) + opt_binder(spec_binder_for(c, f, ps.last()))
    }
}

/// The build-determined default protocol list: the stream transport when
/// its binder capability is present, nothing otherwise.
pub open spec fn spec_default_protocols(f: Features) -> Seq<Protocol> {
    if f.tcp_binder {
        seq![Protocol::Tcp]
    } else {
        seq![]
    }
}

/// The protocol list a request effectively asks for: the default list when
/// the request is empty.
pub open spec fn spec_requested(f: Features, ps: Seq<Protocol>) -> Seq<Protocol> {
    if ps.len() == 0 {
        spec_default_protocols(f)
    } else {
        ps
    }
}

/// The variants a build offers for selection, excluding `Unset`.
pub open spec fn spec_value_variants(f: Features) -> Seq<Protocol> {
    if f.tcp_binder || f.tcp_client {
        seq![Protocol::Tcp]
    } else {
        seq![]
    }
}

/// The addressing views of a binder list.
pub open spec fn binder_views(bs: Seq<Binder>) -> Seq<(Seq<char>, u16)> {
    bs.map_values(|b: Binder| (b.host@, b.port))
}

impl Features {
    /// The default protocol list of this build.
    pub fn default_protocols(&self) -> (ps: Vec<Protocol>)
        ensures
            ps@ == spec_default_protocols(*self),
    {
        let mut ps: Vec<Protocol> = Vec::new();
        if self.tcp_binder {
            ps.push(Protocol::Tcp);
        }
        assert(ps@ =~= spec_default_protocols(*self));
        ps
    }
}

impl Protocol {
    /// Resolve the requested protocols (or, for an empty request, the
    /// build's default list) into binders, in request order: one binder
    /// per protocol whose configuration section is present, dropping the
    /// others silently.
    pub fn to_binders(config: &Config, protocols: Vec<Protocol>, features: &Features) -> (binders:
        Vec<Binder>)
        ensures
            binder_views(binders@) == spec_to_binders(
                *config,
                *features,
                spec_requested(*features, protocols@),
            ),
    {
        let ghost requested_view = spec_requested(*features, protocols@);
        let requested: Vec<Protocol> = if protocols.len() == 0 {
            features.default_protocols()
        } else {
            protocols
        };
        let mut binders: Vec<Binder> = Vec::new();
        let mut i: usize = 0;
        assert(binders@.map_values(|b: Binder| (b.host@, b.port)) =~= spec_to_binders(
            *config,
            *features,
            requested@.take(0),
        ));
        while i < requested.len()
            invariant
                i <= requested.len(),
                requested@ == requested_view,
                binder_views(binders@) == spec_to_binders(
                    *config,
                    *features,
                    requested@.take(i as int),
                ),
            decreases requested.len() - i,
        {
            let ghost prev = binders@;
            match requested[i] {
                Protocol::Tcp => {
                    if features.tcp_binder {
                        match &config.tcp {
                            Option::Some(tcp) => {
                                binders.push(Binder { host: tcp.host.clone(), port: tcp.port });
                            },
                            Option::None => {},
                        }
                    }
                },
                Protocol::Unset => {},
            }
            i = i + 1;
            proof {
                assert(requested@.take(i as int).drop_last() =~= requested@.take(i - 1));
                assert(requested@.take(i as int).last() == requested@[i - 1]);
                assert(binder_views(binders@) =~= binder_views(prev) + opt_binder(
                    spec_binder_for(*config, *features, requested@[i - 1]),
                ));
            }
        }
        proof {
            assert(requested@.take(i as int) =~= requested@);
        }
        binders
    }

    /// Resolve exactly one client. `Unset` always fails with the missing-
    /// protocol error, whatever the configuration holds; a protocol whose
    /// configuration section is absent fails with the missing-configuration
    /// error naming it; otherwise the client is addressed to the section's
    /// host and port.
    pub fn to_client(&self, config: &Config) -> (r: Result<Client, ProtocolError>)
        ensures
            r is Ok <==> (*self is Tcp && config.tcp is Some),
            *self is Unset ==> r == Result::<Client, ProtocolError>::Err(
                ProtocolError::MissingProtocol,
            ),
            *self is Tcp && config.tcp is None ==> r == Result::<Client, ProtocolError>::Err(
                ProtocolError::MissingTcpConfig,
            ),
            (r matches Ok(client) ==> client.host@ == config.tcp.unwrap().host@ && client.port
                == config.tcp.unwrap().port),
    {
        match self {
            Protocol::Tcp => match &config.tcp {
                Option::Some(tcp) => Result::Ok(Client { host: tcp.host.clone(), port: tcp.port }),
                Option::None => Result::Err(ProtocolError::MissingTcpConfig),
            },
            Protocol::Unset => Result::Err(ProtocolError::MissingProtocol),
        }
    }

    /// Parse a protocol name: `"tcp"` selects the stream transport, in any
    /// case when asked to ignore case. Anything else is rejected with a
    /// message naming the input; in particular `"none"` never parses, so
    /// the sentinel cannot be selected.
    pub fn from_str(input: &str, ignore_case: bool) -> (r: Result<Protocol, String>)
        ensures
            spec_is_tcp_name(input@, ignore_case) ==> r == Result::<Protocol, String>::Ok(
                Protocol::Tcp,
            ),
            !spec_is_tcp_name(input@, ignore_case) ==> (r matches Err(msg) && msg@
                == "invalid protocol "@ + input@),
    {
        let n = input.unicode_len();
        let mut is_tcp = false;
        if n == 3 {
            let c0 = input.get_char(0);
            let c1 = input.get_char(1);
            let c2 = input.get_char(2);
            is_tcp = if ignore_case {
                (c0 == 't' || c0 == 'T') && (c1 == 'c' || c1 == 'C') && (c2 == 'p' || c2 == 'P')
            } else {
                c0 == 't' && c1 == 'c' && c2 == 'p'
            };
            proof {
                reveal_strlit("tcp");
                if !ignore_case {
                    if is_tcp {
                        assert(input@ =~= "tcp"@);
                    } else {
                        assert(input@ != "tcp"@) by {
                            if input@ == "tcp"@ {
                                assert(c0 == 't' && c1 == 'c' && c2 == 'p');
                            }
                        }
                    }
                }
            }
        } else {
            proof {
                reveal_strlit("tcp");
            }
        }
        if is_tcp {
            Result::Ok(Protocol::Tcp)
        } else {
            Result::Err(String::from_str("invalid protocol ").concat(input))
        }
    }

    /// The string form of the protocol.
    pub fn to_string(&self) -> (r: String)
        ensures
            r@ == spec_name(*self),
    {
        match self {
            Protocol::Tcp => String::from_str("tcp"),
            Protocol::Unset => String::from_str("none"),
        }
    }

    /// The protocols a build offers for selection, in declaration order:
    /// the `Unset` sentinel is never offered.
    pub fn value_variants(features: &Features) -> (vs: Vec<Protocol>)
        ensures
            vs@ == spec_value_variants(*features),
    {
        let mut vs: Vec<Protocol> = Vec::new();
        if features.tcp_binder || features.tcp_client {
            vs.push(Protocol::Tcp);
        }
        assert(vs@ =~= spec_value_variants(*features));
        vs
    }
}

impl ProtocolError {
    /// The descriptive message of the error, naming the missing protocol
    /// or configuration section.
    pub fn message(&self) -> (m: String)
        ensures
            m@ == spec_error_message(*self),
    {
        match self {
            ProtocolError::MissingProtocol => String::from_str(
                "cannot build client: missing protocol",
            ),
            ProtocolError::MissingTcpConfig => String::from_str(
                "cannot build tcp client: missing tcp config",
            ),
        }
    }
}

impl Default for Protocol {
    /// The default protocol is the `Unset` sentinel: a client request must
    /// name a protocol explicitly to be usable.
    fn default() -> (p: Protocol)
        ensures
            p == Protocol::Unset,
    {
        Protocol::Unset
    }
}

impl Default for Config {
    /// A configuration with every protocol section absent.
    fn default() -> (c: Config)
        ensures
            c.tcp is None,
    {
        Config { tcp: Option::None }
    }
}

/// With no binder capability, an empty request yields no binder at all;
/// with the stream binder available and its section configured, an empty
/// request yields exactly one binder, addressed to the section's host and
/// port.
pub proof fn lemma_default_binders(c: Config, f: Features)
    ensures
        !f.tcp_binder ==> spec_to_binders(c, f, spec_requested(f, Seq::empty())).len() == 0,
        f.tcp_binder && c.tcp is Some ==> spec_to_binders(c, f, spec_requested(f, Seq::empty()))
            == seq![(c.tcp.unwrap().host@, c.tcp.unwrap().port)],
{
    let ps = spec_requested(f, Seq::empty());
    if f.tcp_binder {
        assert(ps.len() == 1);
        assert(ps.last() == Protocol::Tcp);
        assert(ps.drop_last() =~= Seq::<Protocol>::empty());
        assert(spec_to_binders(c, f, ps.drop_last()) =~= Seq::<(Seq<char>, u16)>::empty());
        if c.tcp is Some {
            let addr = (c.tcp.unwrap().host@, c.tcp.unwrap().port);
            assert(spec_binder_for(c, f, Protocol::Tcp) == Option::Some(addr));
            assert(spec_to_binders(c, f, ps) =~= seq![addr]);
        }
    }
}

/// A requested protocol whose configuration section is absent is silently
/// dropped, never an error: with no section configured, any request at all
/// resolves to no binder.
pub proof fn lemma_missing_section_drops(c: Config, f: Features, ps: Seq<Protocol>)
    requires
        c.tcp is None,
    ensures
        spec_to_binders(c, f, ps).len() == 0,
    decreases ps.len(),
{
    if ps.len() > 0 {
        lemma_missing_section_drops(c, f, ps.drop_last());
    }
}

/// Round trip: every selectable protocol's string form parses back — with
/// or without case folding — to the same protocol, while the `Unset`
/// sentinel's string form never parses and `Unset` is never offered for
/// selection.
pub proof fn lemma_name_round_trip(p: Protocol, ignore_case: bool, f: Features)
    ensures
        p != Protocol::Unset ==> spec_is_tcp_name(spec_name(p), ignore_case) && p == Protocol::Tcp,
        !spec_is_tcp_name(spec_name(Protocol::Unset), ignore_case),
        !spec_value_variants(f).contains(Protocol::Unset),
{
    reveal_strlit("tcp");
    reveal_strlit("none");
    assert(("none"@).len() == 4);
    assert(("tcp"@).len() == 3);
    assert("none"@ != "tcp"@);
    assert(!spec_value_variants(f).contains(Protocol::Unset)) by {
        if spec_value_variants(f).contains(Protocol::Unset) {
            let i = choose|i: int|
                0 <= i < spec_value_variants(f).len() && spec_value_variants(f)[i]
                    == Protocol::Unset;
            assert(spec_value_variants(f)[i] == Protocol::Tcp);
        }
    }
}

} // verus!
