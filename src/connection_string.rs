use vstd::prelude::*;
use vstd::string::*;

use crate::connection::{
    require_credential_part, resolve_event_hub_name, scheme_spec, service_endpoint_spec,
    CredentialPartError, TransportType,
};
use crate::error::ConnectionError;
use crate::resource::{
    build_connection_signature_authorization_resource, lower_of, url_parses, BuildResourceError,
};

verus! {

/// `s` cut at every `sep`; an input without `sep` is a single segment.
pub open spec fn split(s: Seq<char>, sep: char) -> Seq<Seq<char>>
    decreases s.len(),
{
    if s.len() == 0 {
        seq![Seq::empty()]
    } else {
        let r = split(s.drop_last(), sep);
        if s.last() == sep {
            r.push(Seq::empty())
        } else {
            r.update(r.len() - 1, r.last().push(s.last()))
        }
    }
}

/// Index of the first `c` in `s`, or `-1`.
pub open spec fn first_index(s: Seq<char>, c: char) -> int
    decreases s.len(),
{
    if s.len() == 0 {
        -1
    } else {
        let p = first_index(s.drop_last(), c);
        if p >= 0 {
            p
        } else if s.last() == c {
            s.len() - 1
        } else {
            -1
        }
    }
}

/// The value of a `key=value` segment whose key is `key`.
pub open spec fn segment_value(seg: Seq<char>, key: Seq<char>) -> Option<Seq<char>> {
    let p = first_index(seg, '=');
    if p >= 0 && seg.subrange(0, p) == key {
        Some(seg.subrange(p + 1, seg.len() as int))
    } else {
        None
    }
}

/// The value of the last segment with key `key`.
pub open spec fn lookup(segs: Seq<Seq<char>>, key: Seq<char>) -> Option<Seq<char>>
    decreases segs.len(),
{
    if segs.len() == 0 {
        None
    } else {
        match segment_value(segs.last(), key) {
            Some(v) => Some(v),
            None => lookup(segs.drop_last(), key),
        }
    }
}

/// The value of `key` in a connection string: `key=value` pairs separated by
/// `;`, where a later pair overrides an earlier one.
pub open spec fn value_of(s: Seq<char>, key: Seq<char>) -> Option<Seq<char>> {
    lookup(split(s, ';'), key)
}

/// The namespace of an endpoint `sb://<namespace>/...`: what follows the
/// scheme, up to the first `/`.
pub open spec fn namespace_of(endpoint: Seq<char>) -> Option<Seq<char>> {
    if endpoint.len() >= 5 && endpoint.subrange(0, 5) == "sb://"@ {
        let rest = endpoint.subrange(5, endpoint.len() as int);
        let p = first_index(rest, '/');
        Some(
            if p >= 0 {
                rest.subrange(0, p)
            } else {
                rest
            },
        )
    } else {
        None
    }
}

/// Why a connection string was refused.
#[derive(Debug, Clone, Copy, PartialEq, Eq, Structural)]
pub enum FormatError {
    /// There is no `Endpoint`.
    MissingEndpoint,
    /// The endpoint is not of the form `sb://<namespace>/`.
    InvalidEndpoint,
    /// The namespace of the endpoint is empty.
    EmptyNamespace,
    /// A shared access signature is given together with a key name or key.
    SignatureWithKey,
}

/// The parts of an Event Hubs connection string.
#[derive(Debug, Clone, PartialEq, Eq)]
pub struct ConnectionStringProperties {
    pub endpoint: String,
    pub fully_qualified_namespace: String,
    pub event_hub_name: Option<String>,
    pub shared_access_key_name: Option<String>,
    pub shared_access_key: Option<String>,
    pub shared_access_signature: Option<String>,
}

/// The characters of an optional string.
pub open spec fn opt_view(o: Option<String>) -> Option<Seq<char>> {
    match o {
        Some(s) => Some(s@),
        None => None,
    }
}

/// The outcome of parsing a connection string, stated over its parts.
pub open spec fn parse_spec(s: Seq<char>) -> Result<(), FormatError> {
    match value_of(s, "Endpoint"@) {
        None => Err(FormatError::MissingEndpoint),
        Some(e) => match namespace_of(e) {
            None => Err(FormatError::InvalidEndpoint),
            Some(ns) => if ns.len() == 0 {
                Err(FormatError::EmptyNamespace)
            } else if value_of(s, "SharedAccessSignature"@) is Some && (value_of(
                s,
                "SharedAccessKeyName"@,
            ) is Some || value_of(s, "SharedAccessKey"@) is Some) {
                Err(FormatError::SignatureWithKey)
            } else {
                Ok(())
            },
        },
    }
}

proof fn lemma_prefix_drop_last(s: Seq<char>, i: int)
    requires
        0 <= i < s.len(),
    ensures
        s.subrange(0, i + 1).drop_last() == s.subrange(0, i),
        s.subrange(0, i + 1).last() == s[i],
{
    assert(s.subrange(0, i + 1).drop_last() =~= s.subrange(0, i));
}

/// Whether two strings hold the same characters.
fn same_text(a: &str, b: &str) -> (r: bool)
    ensures
        r == (a@ == b@),
{
    let n = a.unicode_len();
    if n != b.unicode_len() {
        return false;
    }
    let mut i: usize = 0;
    while i < n
        invariant
            n == a@.len(),
            n == b@.len(),
            i <= n,
            forall|j: int| 0 <= j < i ==> a@[j] == b@[j],
        decreases n - i,
    {
        if a.get_char(i) != b.get_char(i) {
            return false;
        }
        i = i + 1;
    }
    proof {
        assert(a@ =~= b@);
    }
    true
}

/// Index of the first `c` in `s`, if any.
fn find_char(s: &str, c: char) -> (r: Option<usize>)
    ensures
        r matches Some(p) ==> p == first_index(s@, c) && p < s@.len(),
        r is None ==> first_index(s@, c) == -1,
{
    let n = s.unicode_len();
    let mut i: usize = 0;
    while i < n
        invariant
            n == s@.len(),
            i <= n,
            first_index(s@.subrange(0, i as int), c) == -1,
        decreases n - i,
    {
        proof {
            lemma_prefix_drop_last(s@, i as int);
        }
        if s.get_char(i) == c {
            proof {
                assert(first_index(s@.subrange(0, i + 1), c) == i);
                lemma_first_index_extends(s@, c, i + 1);
            }
            return Some(i);
        }
        i = i + 1;
    }
    proof {
        assert(s@.subrange(0, n as int) =~= s@);
    }
    None
}

/// Once found in a prefix, the first index stays the same in longer prefixes.
proof fn lemma_first_index_extends(s: Seq<char>, c: char, k: int)
    requires
        0 <= k <= s.len(),
        first_index(s.subrange(0, k), c) >= 0,
    ensures
        first_index(s, c) == first_index(s.subrange(0, k), c),
    decreases s.len() - k,
{
    if k < s.len() {
        lemma_prefix_drop_last(s, k);
        lemma_first_index_extends(s, c, k + 1);
    } else {
        assert(s.subrange(0, k) =~= s);
    }
}

/// The value of `seg` when its key is `key`.
fn segment_value_exec(seg: &str, key: &str) -> (r: Option<String>)
    ensures
        opt_view(r) == segment_value(seg@, key@),
{
    let n = seg.unicode_len();
    match find_char(seg, '=') {
        None => None,
        Some(p) => {
            let k = seg.substring_char(0, p);
            if same_text(k, key) {
                let v = seg.substring_char(p + 1, n);
                Some(v.to_owned())
            } else {
                None
            }
        },
    }
}

/// The segments of `s` between `;` separators.
fn split_segments(s: &str) -> (r: Vec<&str>)
    ensures
        r@.map_values(|x: &str| x@) == split(s@, ';'),
{
    let n = s.unicode_len();
    let mut segs: Vec<&str> = Vec::new();
    let mut start: usize = 0;
    let mut i: usize = 0;
    proof {
        assert(s@.subrange(0, 0) =~= Seq::<char>::empty());
        assert(segs@.map_values(|x: &str| x@).push(s@.subrange(0, 0)) =~= seq![Seq::<char>::empty()]);
    }
    while i < n
        invariant
            n == s@.len(),
            start <= i <= n,
            segs@.map_values(|x: &str| x@).push(s@.subrange(start as int, i as int)) == split(
                s@.subrange(0, i as int),
                ';',
            ),
        decreases n - i,
    {
        proof {
            lemma_prefix_drop_last(s@, i as int);
        }
        let ghost before = segs@.map_values(|x: &str| x@);
        if s.get_char(i) == ';' {
            let seg = s.substring_char(start, i);
            segs.push(seg);
            proof {
                assert(segs@.map_values(|x: &str| x@) =~= before.push(seg@));
                assert(s@.subrange((i + 1) as int, (i + 1) as int) =~= Seq::<char>::empty());
            }
            start = i + 1;
        } else {
            proof {
                assert(s@.subrange(start as int, i + 1) =~= s@.subrange(start as int, i as int).push(
                    s@[i as int],
                ));
                assert(before.push(s@.subrange(start as int, i + 1)) =~= before.push(
                    s@.subrange(start as int, i as int),
                ).update(before.len() as int, s@.subrange(start as int, i as int).push(s@[i as int])));
            }
        }
        i = i + 1;
    }
    let last = s.substring_char(start, n);
    segs.push(last);
    proof {
        assert(s@.subrange(0, n as int) =~= s@);
        assert(segs@.map_values(|x: &str| x@) =~= segs@.drop_last().map_values(|x: &str| x@).push(
            last@,
        ));
    }
    segs
}

/// The value of the last segment whose key is `key`.
fn lookup_exec(segs: &Vec<&str>, key: &str) -> (r: Option<String>)
    ensures
        opt_view(r) == lookup(segs@.map_values(|x: &str| x@), key@),
{
    let mut found: Option<String> = None;
    let mut j: usize = 0;
    while j < segs.len()
        invariant
            j <= segs@.len(),
            opt_view(found) == lookup(segs@.subrange(0, j as int).map_values(|x: &str| x@), key@),
        decreases segs@.len() - j,
    {
        let v = segment_value_exec(segs[j], key);
        proof {
            let next = segs@.subrange(0, j + 1).map_values(|x: &str| x@);
            assert(next.drop_last() =~= segs@.subrange(0, j as int).map_values(|x: &str| x@));
            assert(next.last() == segs@[j as int]@);
        }
        if v.is_some() {
            found = v;
        }
        j = j + 1;
    }
    proof {
        assert(segs@.subrange(0, segs@.len() as int) =~= segs@);
    }
    found
}

/// What follows `sb://` in the endpoint, up to the first `/`.
fn namespace_exec(endpoint: &str) -> (r: Option<String>)
    ensures
        opt_view(r) == namespace_of(endpoint@),
{
    proof {
        reveal_strlit("sb://");
    }
    let n = endpoint.unicode_len();
    if n < 5 {
        return None;
    }
    let scheme = endpoint.substring_char(0, 5);
    if !same_text(scheme, "sb://") {
        return None;
    }
    let rest = endpoint.substring_char(5, n);
    match find_char(rest, '/') {
        Some(p) => Some(rest.substring_char(0, p).to_owned()),
        None => Some(rest.to_owned()),
    }
}

impl ConnectionStringProperties {
    /// Parses `Endpoint=sb://<namespace>/;SharedAccessKeyName=...;SharedAccessKey=...;EntityPath=...;SharedAccessSignature=...`.
    /// The endpoint is required and its namespace must not be empty; the
    /// other parts are optional, a signature excludes a key name or key, and
    /// unknown keys are ignored.
    pub fn parse(s: &str) -> (r: Result<ConnectionStringProperties, FormatError>)
        ensures
            match parse_spec(s@) {
                Err(e) => r == Err::<ConnectionStringProperties, FormatError>(e),
                Ok(()) => r matches Ok(p) && {
                    &&& Some(p.endpoint@) == value_of(s@, "Endpoint"@)
                    &&& Some(p.fully_qualified_namespace@) == namespace_of(p.endpoint@)
                    &&& opt_view(p.event_hub_name) == value_of(s@, "EntityPath"@)
                    &&& opt_view(p.shared_access_key_name) == value_of(s@, "SharedAccessKeyName"@)
                    &&& opt_view(p.shared_access_key) == value_of(s@, "SharedAccessKey"@)
                    &&& opt_view(p.shared_access_signature) == value_of(s@, "SharedAccessSignature"@)
                },
            },
    {
        let segs = split_segments(s);
        let endpoint = match lookup_exec(&segs, "Endpoint") {
            Some(e) => e,
            None => return Err(FormatError::MissingEndpoint),
        };
        let fully_qualified_namespace = match namespace_exec(endpoint.as_str()) {
            Some(ns) => ns,
            None => return Err(FormatError::InvalidEndpoint),
        };
        if fully_qualified_namespace.as_str().is_empty() {
            return Err(FormatError::EmptyNamespace);
        }
        let event_hub_name = lookup_exec(&segs, "EntityPath");
        let shared_access_key_name = lookup_exec(&segs, "SharedAccessKeyName");
        let shared_access_key = lookup_exec(&segs, "SharedAccessKey");
        let shared_access_signature = lookup_exec(&segs, "SharedAccessSignature");
        if shared_access_signature.is_some() && (shared_access_key_name.is_some()
            || shared_access_key.is_some()) {
            return Err(FormatError::SignatureWithKey);
        }
        Ok(ConnectionStringProperties {
            endpoint,
            fully_qualified_namespace,
            event_hub_name,
            shared_access_key_name,
            shared_access_key,
            shared_access_signature,
        })
    }
}

/// How a connection authenticates, as read from a connection string.
#[derive(Debug, Clone, PartialEq, Eq)]
pub enum CredentialSource {
    /// A pre-minted shared access signature, passed through as is.
    SharedAccessSignature(String),
    /// A shared access key, from which signatures for `resource` are minted.
    SharedAccessKey { resource: String, key_name: String, key: String },
}

/// Why a connection could not be set up from a connection string.
#[derive(Debug)]
pub enum SetupError {
    /// The event hub is named neither by the caller nor by the connection string.
    Connection(ConnectionError),
    /// The shared access key name is missing or empty.
    KeyName(CredentialPartError),
    /// The shared access key is missing or empty.
    Key(CredentialPartError),
    /// The signature resource could not be built.
    Resource(BuildResourceError),
}

/// Everything needed to open a connection described by a connection string.
#[derive(Debug, Clone, PartialEq, Eq)]
pub struct ConnectionSetup {
    pub fully_qualified_namespace: String,
    pub event_hub_name: String,
    pub credential: CredentialSource,
}

/// Whether the caller named an event hub (an empty name counts as none).
pub open spec fn names_hub(requested: Option<Seq<char>>) -> bool {
    requested matches Some(s) && s.len() > 0
}

/// The state of a credential part: missing, empty, or usable.
pub open spec fn part_check(part: Option<Seq<char>>) -> Result<Seq<char>, CredentialPartError> {
    match part {
        None => Err(CredentialPartError::Missing),
        Some(s) => if s.len() == 0 {
            Err(CredentialPartError::Empty)
        } else {
            Ok(s)
        },
    }
}

/// The event hub a connection goes to: the caller's, unless absent or empty,
/// else the one of the connection string.
pub open spec fn chosen_hub(requested: Option<Seq<char>>, from_connection_string: Option<Seq<char>>) -> Seq<
    char,
> {
    if names_hub(requested) {
        requested.unwrap()
    } else {
        from_connection_string.unwrap()
    }
}

/// The text `url::Url::parse` is given for the signature resource.
pub open spec fn resource_address(t: TransportType, namespace: Seq<char>) -> Seq<char> {
    service_endpoint_spec(scheme_spec(t), namespace)
}

/// The outcome of a setup as plain values: namespace, event hub and credential.
pub open spec fn setup_view(r: Result<ConnectionSetup, SetupError>) -> Result<
    (Seq<char>, Seq<char>, CredentialSource),
    SetupError,
> {
    match r {
        Ok(c) => Ok((c.fully_qualified_namespace@, c.event_hub_name@, c.credential)),
        Err(e) => Err(e),
    }
}

/// What setting up a connection yields, given the namespace, the parts of the
/// connection string and the event hub the caller asked for. Only the key
/// path's resource is left to the `url` crate: it is a lower-cased URL text,
/// and it fails to parse exactly when `url::Url::parse` refuses the address.
pub open spec fn setup_expected(
    out: Result<(Seq<char>, Seq<char>, CredentialSource), SetupError>,
    namespace: Seq<char>,
    entity_path: Option<Seq<char>>,
    signature: Option<Seq<char>>,
    key_name: Option<Seq<char>>,
    key: Option<Seq<char>>,
    requested: Option<Seq<char>>,
    t: TransportType,
) -> bool {
    if !(names_hub(requested) || entity_path is Some) {
        out matches Err(SetupError::Connection(ConnectionError::EventHubNameIsNotSpecified))
    } else {
        match signature {
            Some(sig) => match out {
                Ok((ns, hub, CredentialSource::SharedAccessSignature(s))) => ns == namespace && hub
                    == chosen_hub(requested, entity_path) && s@ == sig,
                _ => false,
            },
            None => match part_check(key_name) {
                Err(e) => out matches Err(SetupError::KeyName(f)) && f == e,
                Ok(n) => match part_check(key) {
                    Err(e) => out matches Err(SetupError::Key(f)) && f == e,
                    Ok(k) => match out {
                        Ok((ns, hub, CredentialSource::SharedAccessKey { resource, key_name, key })) => {
                            &&& ns == namespace
                            &&& hub == chosen_hub(requested, entity_path)
                            &&& key_name@ == n
                            &&& key@ == k
                            &&& namespace.len() > 0 ==> exists|t: Seq<char>| resource@ == lower_of(t)
                        },
                        Err(SetupError::Resource(e)) => namespace.len() > 0 && ((e matches BuildResourceError::ParseError(
                            _,
                        )) <==> !url_parses(resource_address(t, namespace))),
                        _ => false,
                    },
                },
            },
        }
    }
}

/// An optional string borrowed as an optional `&str`.
fn as_str_opt(o: &Option<String>) -> (r: Option<&str>)
    ensures
        match o {
            Some(s) => r matches Some(x) && x@ == s@,
            None => r is None,
        },
{
    match o {
        Some(s) => Some(s.as_str()),
        None => None,
    }
}

/// Decides how to connect from a parsed connection string: the event hub
/// given by the caller (unless empty) or by the connection string, and the
/// shared access signature when there is one, else the key name and key,
/// both required and non-empty, with the signature resource of the hub.
pub fn connection_setup(
    props: ConnectionStringProperties,
    event_hub_name: Option<String>,
    transport_type: TransportType,
) -> (r: Result<ConnectionSetup, SetupError>)
    ensures
        setup_expected(
            setup_view(r),
            props.fully_qualified_namespace@,
            opt_view(props.event_hub_name),
            opt_view(props.shared_access_signature),
            opt_view(props.shared_access_key_name),
            opt_view(props.shared_access_key),
            opt_view(event_hub_name),
            transport_type,
        ),
{
    let hub = match resolve_event_hub_name(event_hub_name, props.event_hub_name) {
        Ok(h) => h,
        Err(e) => return Err(SetupError::Connection(e)),
    };
    let credential = match props.shared_access_signature {
        Some(sig) => CredentialSource::SharedAccessSignature(sig),
        None => {
            let key_name = match require_credential_part(as_str_opt(&props.shared_access_key_name)) {
                Ok(k) => k.to_owned(),
                Err(e) => return Err(SetupError::KeyName(e)),
            };
            let key = match require_credential_part(as_str_opt(&props.shared_access_key)) {
                Ok(k) => k.to_owned(),
                Err(e) => return Err(SetupError::Key(e)),
            };
            let resource = match build_connection_signature_authorization_resource(
                transport_type,
                Some(props.fully_qualified_namespace.as_str()),
                Some(hub.as_str()),
            ) {
                Ok(r) => r,
                Err(e) => return Err(SetupError::Resource(e)),
            };
            CredentialSource::SharedAccessKey { resource, key_name, key }
        },
    };
    Ok(ConnectionSetup {
        fully_qualified_namespace: props.fully_qualified_namespace,
        event_hub_name: hub,
        credential,
    })
}

} // verus!
